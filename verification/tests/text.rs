use marcador::text::{decimal_string, lines, read_isize, split, trim_cr};

#[test]
fn decimal_rendering() {
    assert_eq!(decimal_string(0), "0");
    assert_eq!(decimal_string(7), "7");
    assert_eq!(decimal_string(10), "10");
    assert_eq!(decimal_string(1024), "1024");
    assert_eq!(decimal_string(u64::MAX), "18446744073709551615");
}

#[test]
fn decimal_rendering_agrees_with_std() {
    for n in [1u64, 9, 11, 99, 100, 101, 65535, 4294967295, 1234567890123] {
        assert_eq!(decimal_string(n), n.to_string());
    }
}

#[test]
fn reading_agrees_with_std() {
    let samples = [
        "", "0", "1", "-1", "+1", "-0", "+0", "007", "-007", "12a", "a12", "1 ", " 1", "-", "+",
        "--1", "+-1", "1_000", "١٢", "9223372036854775807", "9223372036854775808",
        "-9223372036854775808", "-9223372036854775809", "99999999999999999999x", "1\n",
    ];
    for s in samples {
        assert_eq!(read_isize(s), s.parse::<isize>().ok(), "on {:?}", s);
    }
}

#[test]
fn reading_reaches_both_ends() {
    assert_eq!(read_isize(&isize::MAX.to_string()), Some(isize::MAX));
    assert_eq!(read_isize(&isize::MIN.to_string()), Some(isize::MIN));
    assert_eq!(read_isize("42"), Some(42));
    assert_eq!(read_isize("-42"), Some(-42));
}

#[test]
fn split_agrees_with_std() {
    let samples = ["", "a", "a b", " a", "a ", "a  b", "  ", "vim -u NONE", "é ü"];
    for s in samples {
        let expected: Vec<String> = s.split(' ').map(|x| x.to_string()).collect();
        assert_eq!(split(s, ' '), expected, "on {:?}", s);
    }
    assert_eq!(split("a,b,,c", ','), vec!["a", "b", "", "c"]);
    assert_eq!(split("", ','), vec![""]);
}

#[test]
fn lines_agree_with_std() {
    let samples = [
        "", "a", "a\n", "a\nb", "a\nb\n", "\n", "\n\n", "a\r\nb", "a\r\nb\r\n", "a\rb\n", "a\r",
        "a\r\n\r\n", "\r\n", "\r", "a\n\nb", "x\r\r\ny",
    ];
    for s in samples {
        let expected: Vec<String> = s.lines().map(|x| x.to_string()).collect();
        assert_eq!(lines(s), expected, "on {:?}", s);
    }
}

#[test]
fn trim_cr_takes_one() {
    assert_eq!(trim_cr("a\r"), "a");
    assert_eq!(trim_cr("a\r\r"), "a\r");
    assert_eq!(trim_cr("a"), "a");
    assert_eq!(trim_cr(""), "");
}
