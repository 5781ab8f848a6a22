//! Building a launcher invocation and decoding what the launcher reports.

pub mod pango;

use vstd::prelude::*;
use vstd::string::*;
use crate::text::{decimal, decimal_string, parse_isize, read_isize, texts};

verus! {

/// What can go wrong between configuring a window and reading its answer.
#[derive(Debug, Clone)]
pub enum Error {
    /// The process could not be started or its pipes failed; carries the cause.
    IoError(String),
    /// The answer to an index request is no integer.
    ParseIntError,
    /// The user dismissed the window, or the process ended abnormally.
    Interrupted,
    /// The user accepted an empty line.
    Blank,
    /// A width outside of what the launcher takes; carries the reason.
    InvalidWidth(&'static str),
    /// The user's input matches no candidate.
    NotFound,
    /// A message-only window was asked for while candidates are present.
    ConfigErrorMessageAndOptions,
}

/// Width of the window, overriding the theme's.
#[derive(Debug, Clone, Copy)]
pub enum Width {
    /// No override: the theme decides.
    Unset,
    /// Percent of the screen: at most 100.
    Percentage(usize),
    /// Pixels: more than 100.
    Pixels(usize),
}

impl Width {
    /// Whether the launcher takes this width.
    pub open spec fn valid(self) -> bool {
        match self {
            Width::Unset => true,
            Width::Percentage(x) => x <= 100,
            Width::Pixels(x) => x > 100,
        }
    }

    /// The complaint about a width that is not valid.
    pub open spec fn complaint(self) -> Seq<char> {
        match self {
            Width::Pixels(_) => "Pixels must be larger than 100"@,
            _ => "Percentage must be between 0 and 100"@,
        }
    }

    /// The theme override that requests this width; nothing where unset.
    pub open spec fn theme_args(self) -> Seq<Seq<char>> {
        match self {
            Width::Unset => seq![],
            Width::Percentage(x) => seq![
                "-theme-str"@,
                "window {width: "@ + decimal(x as nat) + "%;}"@,
            ],
            Width::Pixels(x) => seq![
                "-theme-str"@,
                "window {width: "@ + decimal(x as nat) + "px;}"@,
            ],
        }
    }

    /// Accepts exactly the valid widths.
    pub fn check(&self) -> (r: Result<(), Error>)
        ensures
            self.valid() ==> r is Ok,
            !self.valid() ==> (r matches Err(Error::InvalidWidth(why)) && why@ == self.complaint()),
    {
        match self {
            Width::Percentage(x) => {
                if *x > 100 {
                    Err(Error::InvalidWidth("Percentage must be between 0 and 100"))
                } else {
                    Ok(())
                }
            },
            Width::Pixels(x) => {
                if *x <= 100 {
                    Err(Error::InvalidWidth("Pixels must be larger than 100"))
                } else {
                    Ok(())
                }
            },
            _ => Ok(()),
        }
    }
}

/// In which form the launcher prints the selection.
#[derive(Debug, Clone, Copy)]
pub enum Format {
    /// The selected line as given, markup included.
    Text,
    /// The selected line with markup removed.
    StrippedText,
    /// What the user typed.
    UserInput,
    /// The position of the selected line among the candidates.
    Index,
}

impl Format {
    /// The letter that `-format` takes for this form.
    pub open spec fn spec_arg(self) -> Seq<char> {
        match self {
            Format::Text => "s"@,
            Format::StrippedText => "p"@,
            Format::UserInput => "f"@,
            Format::Index => "i"@,
        }
    }

    /// The letter that `-format` takes for this form.
    pub fn as_arg(&self) -> (r: &'static str)
        ensures
            r@ == self.spec_arg(),
    {
        match self {
            Format::Text => "s",
            Format::StrippedText => "p",
            Format::UserInput => "f",
            Format::Index => "i",
        }
    }
}

/// One of the further options of a window.
#[derive(Debug)]
pub enum Extra {
    /// The prompt shown before the input: `-p`.
    Prompt(String),
    /// The message line shown below the input: `-mesg`.
    Message(String),
    /// The launcher theme: `-theme`.
    Theme(String),
    /// A key chord bound to a custom action: `-kb-custom-<id>`.
    Keybinding(u32, String),
    /// Markup in the candidates: `-markup-rows`.
    MarkupRows,
    /// Hidden input: `-password`.
    Password,
}

/// A further option, as plain values.
pub enum ExtraView {
    /// The prompt shown before the input.
    Prompt(Seq<char>),
    /// The message line shown below the input.
    Message(Seq<char>),
    /// The launcher theme.
    Theme(Seq<char>),
    /// A key chord bound to a custom action.
    Keybinding(u32, Seq<char>),
    /// Markup in the candidates.
    MarkupRows,
    /// Hidden input.
    Password,
}

/// The flag that binds custom action `id`.
pub open spec fn kb_custom_flag(id: u32) -> Seq<char> {
    "-kb-custom-"@ + decimal(id as nat)
}

impl ExtraView {
    /// The arguments that request this option.
    pub open spec fn tokens(self) -> Seq<Seq<char>> {
        match self {
            ExtraView::Prompt(text) => seq!["-p"@, text],
            ExtraView::Message(text) => seq!["-mesg"@, text],
            ExtraView::Theme(name) => seq!["-theme"@, name],
            ExtraView::Keybinding(id, chord) => seq![kb_custom_flag(id), chord],
            ExtraView::MarkupRows => seq!["-markup-rows"@],
            ExtraView::Password => seq!["-password"@],
        }
    }

    /// Whether configuring this option replaces `earlier`: a prompt replaces
    /// the prompt, a message line the message line. Everything else, key
    /// bindings included, is kept beside what was configured before.
    pub open spec fn replaces(self, earlier: ExtraView) -> bool {
        (self is Prompt && earlier is Prompt) || (self is Message && earlier is Message)
    }
}

impl View for Extra {
    type V = ExtraView;

    open spec fn view(&self) -> ExtraView {
        match self {
            Extra::Prompt(text) => ExtraView::Prompt(text@),
            Extra::Message(text) => ExtraView::Message(text@),
            Extra::Theme(name) => ExtraView::Theme(name@),
            Extra::Keybinding(id, chord) => ExtraView::Keybinding(*id, chord@),
            Extra::MarkupRows => ExtraView::MarkupRows,
            Extra::Password => ExtraView::Password,
        }
    }
}

impl Clone for Extra {
    fn clone(&self) -> (r: Self)
        ensures
            r@ == self@,
    {
        match self {
            Extra::Prompt(text) => Extra::Prompt(text.clone()),
            Extra::Message(text) => Extra::Message(text.clone()),
            Extra::Theme(name) => Extra::Theme(name.clone()),
            Extra::Keybinding(id, chord) => Extra::Keybinding(*id, chord.clone()),
            Extra::MarkupRows => Extra::MarkupRows,
            Extra::Password => Extra::Password,
        }
    }
}

impl Extra {
    /// Whether configuring this option replaces `earlier`.
    pub fn replaces(&self, earlier: &Extra) -> (r: bool)
        ensures
            r == self@.replaces(earlier@),
    {
        match (self, earlier) {
            (Extra::Prompt(_), Extra::Prompt(_)) => true,
            (Extra::Message(_), Extra::Message(_)) => true,
            _ => false,
        }
    }
}

/// The views of a sequence of options.
pub open spec fn extras_view(extras: Seq<Extra>) -> Seq<ExtraView> {
    Seq::new(extras.len(), |i: int| extras[i]@)
}

/// The arguments that request the options, in order.
pub open spec fn extra_args(extras: Seq<ExtraView>) -> Seq<Seq<char>>
    decreases extras.len(),
{
    if extras.len() == 0 {
        seq![]
    } else {
        extra_args(extras.drop_last()) + extras.last().tokens()
    }
}

/// The options less those that `extra` replaces.
pub open spec fn without(extras: Seq<ExtraView>, extra: ExtraView) -> Seq<ExtraView>
    decreases extras.len(),
{
    if extras.len() == 0 {
        extras
    } else if extra.replaces(extras.last()) {
        without(extras.drop_last(), extra)
    } else {
        without(extras.drop_last(), extra).push(extras.last())
    }
}

/// The options after `extra` is configured: what it replaces is gone, and
/// it stands last.
pub open spec fn with_extra(extras: Seq<ExtraView>, extra: ExtraView) -> Seq<ExtraView> {
    without(extras, extra).push(extra)
}

/// An option that replaces nothing is added after the others.
pub proof fn lemma_with_extra_appends(extras: Seq<ExtraView>, extra: ExtraView)
    requires
        !(extra is Prompt),
        !(extra is Message),
    ensures
        without(extras, extra) == extras,
        with_extra(extras, extra) == extras.push(extra),
    decreases extras.len(),
{
    if extras.len() > 0 {
        lemma_with_extra_appends(extras.drop_last(), extra);
        assert(extras.drop_last().push(extras.last()) =~= extras);
    }
}

/// What is left when the options that `extra` replaces are taken out holds
/// none that `extra` replaces, and keeps the others in their order.
pub proof fn lemma_without(extras: Seq<ExtraView>, extra: ExtraView)
    ensures
        forall|i: int|
            0 <= i < without(extras, extra).len() ==> !extra.replaces(
                #[trigger] without(extras, extra)[i],
            ),
        without(without(extras, extra), extra) == without(extras, extra),
        without(extras, extra).len() <= extras.len(),
    decreases extras.len(),
{
    if extras.len() > 0 {
        let front = without(extras.drop_last(), extra);
        lemma_without(extras.drop_last(), extra);
        if !extra.replaces(extras.last()) {
            assert(front.push(extras.last()).drop_last() =~= front);
        }
    }
}

/// A window's configuration, as plain values.
pub struct RofiView {
    /// The candidates, in the order in which they are shown and counted.
    pub elements: Seq<Seq<char>>,
    /// Whether matching tells upper case from lower case.
    pub case_sensitive: bool,
    /// The number of visible lines, where it is not the number of candidates.
    pub lines: Option<usize>,
    /// The text of a message-only window.
    pub message: Option<Seq<char>>,
    /// The width override.
    pub width: Width,
    /// The form in which a text request is answered.
    pub format: Format,
    /// The further options, in the order in which they were configured.
    pub extras: Seq<ExtraView>,
    /// Whether the launcher sorts the candidates.
    pub sort: bool,
}

impl RofiView {
    /// What every configuration satisfies: a message-only window has no
    /// candidates, and the width is one the launcher takes.
    pub open spec fn wf(self) -> bool {
        &&& self.message is Some ==> self.elements.len() == 0
        &&& self.width.valid()
    }

    /// The number that `-l` is given.
    pub open spec fn line_count(self) -> nat {
        match self.lines {
            Some(l) => l as nat,
            None => self.elements.len(),
        }
    }

    /// The arguments that select the dialog mode.
    pub open spec fn mode_args(self) -> Seq<Seq<char>> {
        match self.message {
            Some(m) => seq!["-e"@, m],
            None => seq!["-dmenu"@],
        }
    }

    /// The flag for the case policy.
    pub open spec fn case_arg(self) -> Seq<char> {
        if self.case_sensitive {
            "-case-sensitive"@
        } else {
            "-i"@
        }
    }

    /// The sort flag, where sorting is on.
    pub open spec fn sort_args(self) -> Seq<Seq<char>> {
        if self.sort {
            seq!["-sort"@]
        } else {
            seq![]
        }
    }

    /// The launcher's arguments: dialog mode, the further options in the
    /// order of their configuration, output form, line count, case policy,
    /// width override, sort flag.
    pub open spec fn arguments(self) -> Seq<Seq<char>> {
        self.mode_args() + extra_args(self.extras) + seq![
            "-format"@,
            self.format.spec_arg(),
            "-l"@,
            decimal(self.line_count()),
            self.case_arg(),
        ] + self.width.theme_args() + self.sort_args()
    }

    /// What the launcher reads: each candidate, followed by a line feed.
    pub open spec fn input(self) -> Seq<char> {
        lines_text(self.elements)
    }
}

/// Each line followed by a line feed, in order.
pub open spec fn lines_text(lines: Seq<Seq<char>>) -> Seq<char>
    decreases lines.len(),
{
    if lines.len() == 0 {
        Seq::empty()
    } else {
        lines_text(lines.drop_last()) + lines.last() + "\n"@
    }
}

/// A launcher window under construction. Configure it once, show it any
/// number of times.
#[derive(Debug, Clone)]
pub struct Rofi<'a> {
    elements: &'a [String],
    case_sensitive: bool,
    lines: Option<usize>,
    message: Option<String>,
    width: Width,
    format: Format,
    args: Vec<Extra>,
    sort: bool,
}

impl<'a> View for Rofi<'a> {
    type V = RofiView;

    closed spec fn view(&self) -> RofiView {
        RofiView {
            elements: texts(self.elements@),
            case_sensitive: self.case_sensitive,
            lines: self.lines,
            message: match self.message {
                Some(m) => Some(m@),
                None => None,
            },
            width: self.width,
            format: self.format,
            extras: extras_view(self.args@),
            sort: self.sort,
        }
    }
}

impl<'a> Rofi<'a> {
    /// A window over `elements` with nothing configured: list mode, text
    /// answers, the theme's width, case-insensitive, unsorted.
    pub fn new(elements: &'a [String]) -> (r: Self)
        ensures
            r@ == (RofiView {
                elements: texts(elements@),
                case_sensitive: false,
                lines: None,
                message: None,
                width: Width::Unset,
                format: Format::Text,
                extras: seq![],
                sort: false,
            }),
            r@.wf(),
    {
        let r = Self {
            elements,
            case_sensitive: false,
            lines: None,
            width: Width::Unset,
            format: Format::Text,
            args: Vec::new(),
            sort: false,
            message: None,
        };
        assert(extras_view(r.args@) =~= seq![]);
        r
    }

    /// Configures `extra`: what it replaces is taken out, and it is added
    /// after the others.
    fn add_extra(&mut self, extra: Extra)
        ensures
            final(self)@ == (RofiView {
                extras: with_extra(old(self)@.extras, extra@),
                ..old(self)@
            }),
    {
        let n = self.args.len();
        let ghost all = extras_view(self.args@);
        let mut kept: Vec<Extra> = Vec::new();
        let mut i: usize = 0;
        assert(extras_view(kept@) =~= without(all.subrange(0, 0), extra@));
        while i < n
            invariant
                i <= n,
                n == self.args@.len(),
                all == extras_view(self.args@),
                extras_view(kept@) == without(all.subrange(0, i as int), extra@),
            decreases n - i,
        {
            let ghost before = extras_view(kept@);
            proof {
                assert(all.subrange(0, i + 1).drop_last() =~= all.subrange(0, i as int));
                assert(all.subrange(0, i + 1).last() == self.args@[i as int]@);
            }
            if !extra.replaces(&self.args[i]) {
                let copy = self.args[i].clone();
                kept.push(copy);
                assert(extras_view(kept@) =~= before.push(self.args@[i as int]@));
            }
            i = i + 1;
        }
        assert(all.subrange(0, n as int) =~= all);
        let ghost before = extras_view(kept@);
        kept.push(extra);
        assert(extras_view(kept@) =~= before.push(extra@));
        self.args = kept;
    }

    /// Turns sorting on.
    pub fn set_sort(&mut self) -> (r: &mut Self)
        ensures
            r@ == (RofiView { sort: true, ..old(self)@ }),
            old(self)@.wf() ==> r@.wf(),
            *final(self) == *final(r),
    {
        self.sort = true;
        self
    }

    /// Has the launcher render markup in the candidates.
    pub fn pango(&mut self) -> (r: &mut Self)
        ensures
            r@ == (RofiView { extras: old(self)@.extras.push(ExtraView::MarkupRows), ..old(self)@ }),
            old(self)@.wf() ==> r@.wf(),
            *final(self) == *final(r),
    {
        proof {
            lemma_with_extra_appends(self@.extras, ExtraView::MarkupRows);
        }
        self.add_extra(Extra::MarkupRows);
        self
    }

    /// Has the launcher hide what is typed.
    pub fn password(&mut self) -> (r: &mut Self)
        ensures
            r@ == (RofiView { extras: old(self)@.extras.push(ExtraView::Password), ..old(self)@ }),
            old(self)@.wf() ==> r@.wf(),
            *final(self) == *final(r),
    {
        proof {
            lemma_with_extra_appends(self@.extras, ExtraView::Password);
        }
        self.add_extra(Extra::Password);
        self
    }

    /// Turns the window into a message-only dialog showing `message`.
    /// Refused, with nothing changed, while candidates are present.
    pub fn message_only(&mut self, message: &str) -> (r: Result<&mut Self, Error>)
        ensures
            old(self)@.elements.len() > 0 ==> (r matches Err(Error::ConfigErrorMessageAndOptions)
                && *final(self) == *old(self)),
            old(self)@.elements.len() == 0 ==> (r matches Ok(w) && w@ == (RofiView {
                message: Some(message@),
                ..old(self)@
            }) && w@.wf() == old(self)@.width.valid() && *final(self) == *final(w)),
    {
        if self.elements.len() != 0 {
            return Err(Error::ConfigErrorMessageAndOptions);
        }
        self.message = Some(message.to_string());
        Ok(self)
    }

    /// Shows `l` lines instead of one line per candidate.
    pub fn lines(&mut self, l: usize) -> (r: &mut Self)
        ensures
            r@ == (RofiView { lines: Some(l), ..old(self)@ }),
            old(self)@.wf() ==> r@.wf(),
            *final(self) == *final(r),
    {
        self.lines = Some(l);
        self
    }

    /// Overrides the theme's width with `w`. An invalid width is refused,
    /// with nothing changed.
    pub fn width(&mut self, w: Width) -> (r: Result<&mut Self, Error>)
        ensures
            !w.valid() ==> (r matches Err(Error::InvalidWidth(why)) && why@ == w.complaint()
                && *final(self) == *old(self)),
            w.valid() ==> (r matches Ok(s) && s@ == (RofiView { width: w, ..old(self)@ })
                && *final(self) == *final(s)),
    {
        match w.check() {
            Err(e) => {
                return Err(e);
            },
            Ok(_) => {},
        }
        self.width = w;
        Ok(self)
    }

    /// Sets whether matching tells upper case from lower case.
    pub fn case_sensitive(&mut self, sensitivity: bool) -> (r: &mut Self)
        ensures
            r@ == (RofiView { case_sensitive: sensitivity, ..old(self)@ }),
            old(self)@.wf() ==> r@.wf(),
            *final(self) == *final(r),
    {
        self.case_sensitive = sensitivity;
        self
    }

    /// Sets the prompt shown before the input, in place of an earlier one.
    pub fn prompt(&mut self, prompt: &str) -> (r: &mut Self)
        ensures
            r@ == (RofiView {
                extras: with_extra(old(self)@.extras, ExtraView::Prompt(prompt@)),
                ..old(self)@
            }),
            old(self)@.wf() ==> r@.wf(),
            *final(self) == *final(r),
    {
        self.add_extra(Extra::Prompt(prompt.to_string()));
        self
    }

    /// Sets the message line shown below the input, in place of an earlier
    /// one.
    pub fn message(&mut self, message: &str) -> (r: &mut Self)
        ensures
            r@ == (RofiView {
                extras: with_extra(old(self)@.extras, ExtraView::Message(message@)),
                ..old(self)@
            }),
            old(self)@.wf() ==> r@.wf(),
            *final(self) == *final(r),
    {
        self.add_extra(Extra::Message(message.to_string()));
        self
    }

    /// Selects the launcher theme of that name; `None` changes nothing.
    pub fn theme(&mut self, theme: Option<&str>) -> (r: &mut Self)
        ensures
            r@ == (match theme {
                Some(t) => RofiView {
                    extras: old(self)@.extras.push(ExtraView::Theme(t@)),
                    ..old(self)@
                },
                None => old(self)@,
            }),
            old(self)@.wf() ==> r@.wf(),
            *final(self) == *final(r),
    {
        if let Some(t) = theme {
            proof {
                lemma_with_extra_appends(self@.extras, ExtraView::Theme(t@));
            }
            self.add_extra(Extra::Theme(t.to_string()));
        }
        self
    }

    /// Sets the form in which a text request is answered. An index request
    /// replaces it with `Format::Index`.
    pub fn return_format(&mut self, format: Format) -> (r: &mut Self)
        ensures
            r@ == (RofiView { format: format, ..old(self)@ }),
            old(self)@.wf() ==> r@.wf(),
            *final(self) == *final(r),
    {
        self.format = format;
        self
    }

    /// Binds the key chord `shortcut` to custom action `id`. Binding an id
    /// again adds a second binding after the first.
    pub fn kb_custom(&mut self, id: u32, shortcut: &str) -> (r: &mut Self)
        ensures
            r@ == (RofiView {
                extras: old(self)@.extras.push(ExtraView::Keybinding(id, shortcut@)),
                ..old(self)@
            }),
            old(self)@.wf() ==> r@.wf(),
            *final(self) == *final(r),
    {
        proof {
            lemma_with_extra_appends(self@.extras, ExtraView::Keybinding(id, shortcut@));
        }
        self.add_extra(Extra::Keybinding(id, shortcut.to_string()));
        self
    }
}

impl Rofi<'static> {
    /// A message-only window showing `message`.
    pub fn new_message(message: &str) -> (r: Self)
        ensures
            r@ == (RofiView {
                elements: seq![],
                case_sensitive: false,
                lines: None,
                message: Some(message@),
                width: Width::Unset,
                format: Format::Text,
                extras: seq![],
                sort: false,
            }),
            r@.wf(),
    {
        let none: &'static [String] = &[];
        let mut rofi = Rofi::new(none);
        rofi.message = Some(message.to_string());
        assert(rofi@.elements =~= seq![]);
        rofi
    }
}

/// The program that shows the window.
pub const PROGRAM: &'static str = "rofi";

/// The exit code of a plain acceptance.
pub const SUCCESS_CODE: i32 = 0;

/// The exit code of the first custom action.
pub const CUSTOM_CODE_FIRST: i32 = 10;

/// The exit code of the last custom action.
pub const CUSTOM_CODE_LAST: i32 = 30;

/// A window that is ready to be shown: what to start, what to feed it, and
/// what is needed to read its answer. `T` is `String` for a text request and
/// `usize` for an index request.
#[derive(Debug)]
pub struct RofiChild<T> {
    num_elements: T,
    args: Vec<String>,
    input: String,
}

impl<T> RofiChild<T> {
    /// The arguments to start the program with.
    pub closed spec fn spec_args(&self) -> Seq<Seq<char>> {
        texts(self.args@)
    }

    /// The text to write to the program's input before closing it.
    pub closed spec fn spec_input(&self) -> Seq<char> {
        self.input@
    }

    /// What was recorded when the window was prepared.
    pub closed spec fn spec_num_elements(&self) -> T {
        self.num_elements
    }

    fn new(args: Vec<String>, input: String, arg: T) -> (r: Self)
        ensures
            r.spec_args() == texts(args@),
            r.spec_input() == input@,
            r.spec_num_elements() == arg,
    {
        Self { num_elements: arg, args, input }
    }

    /// The program to start.
    pub fn program(&self) -> (r: &'static str)
        ensures
            r@ == PROGRAM@,
    {
        PROGRAM
    }

    /// The arguments to start the program with.
    pub fn args(&self) -> (r: &Vec<String>)
        ensures
            texts(r@) == self.spec_args(),
    {
        &self.args
    }

    /// The text to write to the program's input before closing it.
    pub fn input(&self) -> (r: &str)
        ensures
            r@ == self.spec_input(),
    {
        self.input.as_str()
    }
}

/// What became of a started process.
#[derive(Debug, Clone)]
pub enum ProcessReport {
    /// It could not be started, or a pipe to it failed; carries the cause.
    Failed(String),
    /// It ended. `code` is its exit code, `None` where a signal ended it;
    /// `output` is everything it wrote to its standard output.
    Exited { code: Option<i32>, output: String },
}

/// Whether an exit carries an answer: success or a custom action. Any other
/// exit is a cancellation.
pub open spec fn accepted(code: Option<i32>) -> bool {
    code matches Some(c) && (c == SUCCESS_CODE || CUSTOM_CODE_FIRST <= c <= CUSTOM_CODE_LAST)
}

/// The answer within the output: the output less one final line feed.
pub open spec fn payload(output: Seq<char>) -> Seq<char> {
    if output.len() > 0 && output.last() == '\n' {
        output.drop_last()
    } else {
        output
    }
}

/// Whether `r` is what a text request yields on `report`.
pub open spec fn text_decoded(report: ProcessReport, r: Result<(i32, Option<String>), Error>) -> bool {
    match report {
        ProcessReport::Failed(cause) => r matches Err(Error::IoError(why)) && why@ == cause@,
        ProcessReport::Exited { code, output } => if !accepted(code) {
            r matches Err(Error::Interrupted)
        } else if payload(output@).len() == 0 {
            r matches Err(Error::Blank)
        } else {
            r matches Ok((c, Some(text))) && code == Some(c) && text@ == payload(output@)
        },
    }
}

/// Whether `r` is what an index request over `num_elements` candidates
/// yields on `report`.
pub open spec fn index_decoded(
    num_elements: usize,
    report: ProcessReport,
    r: Result<(i32, Option<usize>), Error>,
) -> bool {
    match report {
        ProcessReport::Failed(cause) => r matches Err(Error::IoError(why)) && why@ == cause@,
        ProcessReport::Exited { code, output } => if !accepted(code) {
            r matches Err(Error::Interrupted)
        } else if payload(output@).len() == 0 {
            r matches Err(Error::Blank)
        } else {
            match parse_isize(payload(output@)) {
                None => r matches Err(Error::ParseIntError),
                Some(i) => if 0 <= i < num_elements {
                    r matches Ok((c, Some(index))) && code == Some(c) && index == i
                } else {
                    r matches Ok((c, None)) && code == Some(c)
                },
            }
        },
    }
}

/// Whether an exit carries an answer.
pub fn is_accepted(code: Option<i32>) -> (r: bool)
    ensures
        r == accepted(code),
{
    match code {
        Some(c) => c == SUCCESS_CODE || (CUSTOM_CODE_FIRST <= c && c <= CUSTOM_CODE_LAST),
        None => false,
    }
}

/// The answer within the output: the output less one final line feed.
pub fn trim_output(output: &str) -> (r: &str)
    ensures
        r@ == payload(output@),
{
    let n = output.unicode_len();
    if n > 0 && output.get_char(n - 1) == '\n' {
        let r = output.substring_char(0, n - 1);
        assert(r@ =~= output@.drop_last());
        r
    } else {
        output
    }
}

/// Decodes the report on a process that was asked for text.
pub fn decode_text(report: ProcessReport) -> (r: Result<(i32, Option<String>), Error>)
    ensures
        text_decoded(report, r),
{
    match report {
        ProcessReport::Failed(cause) => Err(Error::IoError(cause)),
        ProcessReport::Exited { code, output } => {
            match code {
                Some(c) => {
                    if !is_accepted(code) {
                        return Err(Error::Interrupted);
                    }
                    let text = trim_output(output.as_str());
                    if text.unicode_len() == 0 {
                        Err(Error::Blank)
                    } else {
                        Ok((c, Some(text.to_string())))
                    }
                },
                None => Err(Error::Interrupted),
            }
        },
    }
}

/// Decodes the report on a process that was asked for an index into
/// `num_elements` candidates.
pub fn decode_index(num_elements: usize, report: ProcessReport) -> (r: Result<
    (i32, Option<usize>),
    Error,
>)
    ensures
        index_decoded(num_elements, report, r),
{
    match report {
        ProcessReport::Failed(cause) => Err(Error::IoError(cause)),
        ProcessReport::Exited { code, output } => {
            match code {
                Some(c) => {
                    if !is_accepted(code) {
                        return Err(Error::Interrupted);
                    }
                    let text = trim_output(output.as_str());
                    if text.unicode_len() == 0 {
                        return Err(Error::Blank);
                    }
                    match read_isize(text) {
                        None => Err(Error::ParseIntError),
                        Some(idx) => {
                            if idx < 0 || idx as usize >= num_elements {
                                Ok((c, None))
                            } else {
                                Ok((c, Some(idx as usize)))
                            }
                        },
                    }
                },
                None => Err(Error::Interrupted),
            }
        },
    }
}

impl RofiChild<String> {
    /// Decodes the report on this window's process: the selected text.
    pub fn wait_with_output(&self, report: ProcessReport) -> (r: Result<
        (i32, Option<String>),
        Error,
    >)
        ensures
            text_decoded(report, r),
    {
        decode_text(report)
    }
}

impl RofiChild<usize> {
    /// Decodes the report on this window's process: the position of the
    /// selected candidate, or `None` where the answer is a number that is
    /// no position.
    pub fn wait_with_output(&self, report: ProcessReport) -> (r: Result<
        (i32, Option<usize>),
        Error,
    >)
        ensures
            index_decoded(self.spec_num_elements(), report, r),
    {
        decode_index(self.num_elements, report)
    }
}

impl<'a> Rofi<'a> {
    /// Adds the arguments that request `extra` to `out`.
    fn push_tokens(out: &mut Vec<String>, extra: &Extra)
        ensures
            texts(final(out)@) == texts(old(out)@) + extra@.tokens(),
    {
        let ghost before = texts(out@);
        match extra {
            Extra::Prompt(text) => {
                out.push("-p".to_string());
                out.push(text.clone());
            },
            Extra::Message(text) => {
                out.push("-mesg".to_string());
                out.push(text.clone());
            },
            Extra::Theme(name) => {
                out.push("-theme".to_string());
                out.push(name.clone());
            },
            Extra::Keybinding(id, chord) => {
                let mut flag = "-kb-custom-".to_string();
                let number = decimal_string(*id as u64);
                flag.append(number.as_str());
                out.push(flag);
                out.push(chord.clone());
            },
            Extra::MarkupRows => {
                out.push("-markup-rows".to_string());
            },
            Extra::Password => {
                out.push("-password".to_string());
            },
        }
        assert(texts(out@) =~= before + extra@.tokens());
    }

    /// The launcher's arguments for this configuration.
    pub fn arguments(&self) -> (r: Vec<String>)
        ensures
            texts(r@) == self@.arguments(),
    {
        let mut out: Vec<String> = Vec::new();
        match &self.message {
            Some(msg) => {
                out.push("-e".to_string());
                out.push(msg.clone());
            },
            None => {
                out.push("-dmenu".to_string());
            },
        }
        assert(texts(out@) =~= self@.mode_args());
        let ghost extras = self@.extras;
        assert(extras.subrange(0, 0) =~= Seq::<ExtraView>::empty());
        let mut i: usize = 0;
        while i < self.args.len()
            invariant
                i <= self.args.len(),
                extras == extras_view(self.args@),
                texts(out@) == self@.mode_args() + extra_args(extras.subrange(0, i as int)),
            decreases self.args.len() - i,
        {
            proof {
                assert(extras.subrange(0, i + 1).drop_last() =~= extras.subrange(0, i as int));
                assert(extras.subrange(0, i + 1).last() == self.args@[i as int]@);
            }
            Self::push_tokens(&mut out, &self.args[i]);
            i = i + 1;
            assert(texts(out@) =~= self@.mode_args() + extra_args(extras.subrange(0, i as int)));
        }
        assert(extras.subrange(0, i as int) =~= extras);
        let ghost head = self@.mode_args() + extra_args(extras);
        out.push("-format".to_string());
        out.push(self.format.as_arg().to_string());
        out.push("-l".to_string());
        let count = match self.lines {
            Some(l) => l,
            None => self.elements.len(),
        };
        out.push(decimal_string(count as u64));
        out.push(
            if self.case_sensitive {
                "-case-sensitive"
            } else {
                "-i"
            }.to_string(),
        );
        let ghost fixed = head + seq![
            "-format"@,
            self@.format.spec_arg(),
            "-l"@,
            decimal(self@.line_count()),
            self@.case_arg(),
        ];
        assert(texts(out@) =~= fixed);
        match self.width {
            Width::Unset => {},
            Width::Percentage(x) => {
                out.push("-theme-str".to_string());
                let mut rule = "window {width: ".to_string();
                let number = decimal_string(x as u64);
                rule.append(number.as_str());
                rule.append("%;}");
                out.push(rule);
            },
            Width::Pixels(x) => {
                out.push("-theme-str".to_string());
                let mut rule = "window {width: ".to_string();
                let number = decimal_string(x as u64);
                rule.append(number.as_str());
                rule.append("px;}");
                out.push(rule);
            },
        }
        assert(texts(out@) =~= fixed + self@.width.theme_args());
        if self.sort {
            out.push("-sort".to_string());
        }
        assert(texts(out@) =~= fixed + self@.width.theme_args() + self@.sort_args());
        out
    }

    /// What is written to the launcher's input: each candidate followed by
    /// a line feed, in order.
    pub fn input(&self) -> (r: String)
        ensures
            r@ == self@.input(),
    {
        let mut out = String::new();
        let mut i: usize = 0;
        assert(texts(self.elements@).subrange(0, 0) =~= Seq::<Seq<char>>::empty());
        while i < self.elements.len()
            invariant
                i <= self.elements.len(),
                out@ == lines_text(texts(self.elements@).subrange(0, i as int)),
            decreases self.elements.len() - i,
        {
            let ghost before = texts(self.elements@).subrange(0, i as int);
            let ghost after = texts(self.elements@).subrange(0, i + 1);
            out.append(self.elements[i].as_str());
            out.append("\n");
            proof {
                assert(after.drop_last() =~= before);
                assert(after.last() == self.elements@[i as int]@);
            }
            i = i + 1;
        }
        assert(texts(self.elements@).subrange(0, i as int) =~= texts(self.elements@));
        out
    }

    /// Prepares the window for a text request.
    pub fn spawn(&self) -> (child: RofiChild<String>)
        ensures
            child.spec_args() == self@.arguments(),
            child.spec_input() == self@.input(),
    {
        RofiChild::new(self.arguments(), self.input(), String::new())
    }

    /// Prepares the window for an index request. The answer form becomes
    /// `Format::Index`, whatever it was.
    pub fn spawn_index(&mut self) -> (child: RofiChild<usize>)
        ensures
            final(self)@ == (RofiView { format: Format::Index, ..old(self)@ }),
            child.spec_args() == final(self)@.arguments(),
            child.spec_input() == final(self)@.input(),
            child.spec_num_elements() == old(self)@.elements.len(),
    {
        self.format = Format::Index;
        RofiChild::new(self.arguments(), self.input(), self.elements.len())
    }

    /// The outcome of a text request, given the report on the process that
    /// `spawn` prepared.
    pub fn run(&self, report: ProcessReport) -> (r: Result<(i32, Option<String>), Error>)
        ensures
            text_decoded(report, r),
    {
        self.spawn().wait_with_output(report)
    }

    /// The outcome of an index request, given the report on the process
    /// that `spawn_index` prepared. The answer form becomes `Format::Index`,
    /// whatever it was.
    pub fn run_index(&mut self, report: ProcessReport) -> (r: Result<(i32, Option<usize>), Error>)
        ensures
            final(self)@ == (RofiView { format: Format::Index, ..old(self)@ }),
            old(self)@.elements.len() <= usize::MAX,
            index_decoded(old(self)@.elements.len() as usize, report, r),
    {
        self.spawn_index().wait_with_output(report)
    }
}

/// The exit code that the launcher uses for custom action `id`.
pub open spec fn custom_code(id: int) -> int {
    CUSTOM_CODE_FIRST + id - 1
}

/// The custom actions whose exit code lies in the reserved band.
pub open spec fn is_custom_id(id: int) -> bool {
    1 <= id <= CUSTOM_CODE_LAST - CUSTOM_CODE_FIRST + 1
}

/// The exit code of custom action `id`, where it has one in the reserved
/// band.
pub fn kb_custom_code(id: u32) -> (r: Option<i32>)
    ensures
        is_custom_id(id as int) ==> r == Some(custom_code(id as int) as i32),
        !is_custom_id(id as int) ==> r is None,
{
    if 1 <= id && id <= (CUSTOM_CODE_LAST - CUSTOM_CODE_FIRST + 1) as u32 {
        Some(CUSTOM_CODE_FIRST + (id as i32 - 1))
    } else {
        None
    }
}

/// An exit with the code of a custom action carries an answer, and the
/// decoded answer hands that code on, for text and for index requests.
pub proof fn law_custom_action_code_is_kept(
    id: int,
    output: String,
    num_elements: usize,
    text: Result<(i32, Option<String>), Error>,
    index: Result<(i32, Option<usize>), Error>,
)
    requires
        is_custom_id(id),
        text_decoded(
            ProcessReport::Exited { code: Some(custom_code(id) as i32), output },
            text,
        ),
        index_decoded(
            num_elements,
            ProcessReport::Exited { code: Some(custom_code(id) as i32), output },
            index,
        ),
    ensures
        accepted(Some(custom_code(id) as i32)),
        !(text matches Err(Error::Interrupted)),
        !(index matches Err(Error::Interrupted)),
        text matches Ok((code, _)) ==> code == custom_code(id),
        index matches Ok((code, _)) ==> code == custom_code(id),
        payload(output@).len() > 0 ==> text is Ok,
{
}

/// An exit whose code carries no answer decodes to `Interrupted`, whatever
/// the process wrote.
pub proof fn law_rejected_exit_is_interrupted(
    code: Option<i32>,
    output: String,
    num_elements: usize,
    text: Result<(i32, Option<String>), Error>,
    index: Result<(i32, Option<usize>), Error>,
)
    requires
        !accepted(code),
        text_decoded(ProcessReport::Exited { code, output }, text),
        index_decoded(num_elements, ProcessReport::Exited { code, output }, index),
    ensures
        text matches Err(Error::Interrupted),
        index matches Err(Error::Interrupted),
{
}

/// Exit code 1 carries no answer, nor does an exit by signal.
pub proof fn law_failure_exit_is_rejected()
    ensures
        !accepted(Some(1)),
        !accepted(None),
        accepted(Some(SUCCESS_CODE)),
{
}

/// An index request asks the launcher for positions whatever answer form
/// was configured before, and changes nothing else.
pub proof fn law_index_request_overrides_format(v: RofiView, earlier: Format)
    ensures
        (RofiView { format: Format::Index, ..(RofiView { format: earlier, ..v }) }) == (RofiView {
            format: Format::Index,
            ..v
        }),
        (RofiView { format: Format::Index, ..v }).arguments() == v.mode_args() + extra_args(
            v.extras,
        ) + seq![
            "-format"@,
            "i"@,
            "-l"@,
            decimal(v.line_count()),
            v.case_arg(),
        ] + v.width.theme_args() + v.sort_args(),
{
}

/// The position that an index request hands out is a position of a
/// candidate.
pub proof fn law_index_is_in_range(
    num_elements: usize,
    report: ProcessReport,
    index: Result<(i32, Option<usize>), Error>,
)
    requires
        index_decoded(num_elements, report, index),
    ensures
        index matches Ok((_, Some(i))) ==> i < num_elements,
{
}

/// Of two prompts, or of two message lines, configured one after the
/// other, the second alone is left, and it stands last.
pub proof fn law_last_call_wins(extras: Seq<ExtraView>, first: ExtraView, second: ExtraView)
    requires
        (first is Prompt && second is Prompt) || (first is Message && second is Message),
    ensures
        with_extra(with_extra(extras, first), second) == with_extra(extras, second),
        with_extra(extras, second).last() == second,
        forall|i: int|
            0 <= i < with_extra(extras, second).len() - 1 ==> !second.replaces(
                #[trigger] with_extra(extras, second)[i],
            ),
{
    lemma_without(extras, first);
    lemma_without(extras, second);
    lemma_without_same(extras, first, second);
    let once = without(extras, first);
    assert(with_extra(extras, first).drop_last() =~= once);
    assert(without(with_extra(extras, first), second) == without(once, second));
    assert forall|i: int| 0 <= i < with_extra(extras, second).len() - 1 implies !second.replaces(
        #[trigger] with_extra(extras, second)[i],
    ) by {
        assert(with_extra(extras, second)[i] == without(extras, second)[i]);
    }
}

/// Two options of one kind take out the same earlier options.
proof fn lemma_without_same(extras: Seq<ExtraView>, first: ExtraView, second: ExtraView)
    requires
        (first is Prompt && second is Prompt) || (first is Message && second is Message),
    ensures
        without(extras, first) == without(extras, second),
        without(without(extras, first), second) == without(extras, second),
    decreases extras.len(),
{
    lemma_without(extras, second);
    if extras.len() > 0 {
        lemma_without_same(extras.drop_last(), first, second);
    }
}

/// Key bindings accumulate: binding an id again keeps the earlier binding
/// and adds the new one after it.
pub proof fn law_keybindings_accumulate(
    extras: Seq<ExtraView>,
    id: u32,
    first: Seq<char>,
    second: Seq<char>,
)
    ensures
        with_extra(
            with_extra(extras, ExtraView::Keybinding(id, first)),
            ExtraView::Keybinding(id, second),
        ) == extras.push(ExtraView::Keybinding(id, first)).push(ExtraView::Keybinding(id, second)),
        extra_args(
            extras.push(ExtraView::Keybinding(id, first)).push(ExtraView::Keybinding(id, second)),
        ) == extra_args(extras) + seq![kb_custom_flag(id), first, kb_custom_flag(id), second],
{
    lemma_with_extra_appends(extras, ExtraView::Keybinding(id, first));
    lemma_with_extra_appends(
        extras.push(ExtraView::Keybinding(id, first)),
        ExtraView::Keybinding(id, second),
    );
    let one = extras.push(ExtraView::Keybinding(id, first));
    let two = one.push(ExtraView::Keybinding(id, second));
    assert(two.drop_last() =~= one);
    assert(one.drop_last() =~= extras);
    assert(extra_args(one) == extra_args(extras) + seq![kb_custom_flag(id), first]);
    assert(extra_args(two) == extra_args(one) + seq![kb_custom_flag(id), second]);
    assert(extra_args(two) =~= extra_args(extras) + seq![
        kb_custom_flag(id),
        first,
        kb_custom_flag(id),
        second,
    ]);
}

} // verus!
