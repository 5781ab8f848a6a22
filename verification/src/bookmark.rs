//! A bookmark with its tags, and how it is shown in a listing.

use vstd::prelude::*;
use vstd::string::*;
use colored::Colorize;
use crate::models::{Bookmarks, Tags};
use crate::text::{decimal, decimal_string, join, joined, texts};

verus! {

/// A bookmark together with the tags attached to it.
#[derive(Debug)]
pub struct Bookmark {
    /// The bookmark's row.
    pub bookmark: Bookmarks,
    /// The tags attached to it, in the order of the store.
    pub tags: Vec<Tags>,
}

impl Clone for Bookmark {
    fn clone(&self) -> (r: Self)
        ensures
            r.bookmark == self.bookmark,
            r.tags@ == self.tags@,
    {
        Bookmark::new(&self.bookmark, self.tags.as_slice())
    }
}

/// The texts of a sequence of tags.
pub open spec fn tag_texts(tags: Seq<Tags>) -> Seq<Seq<char>> {
    Seq::new(tags.len(), |i: int| tags[i].tag@)
}

/// The colors that a listing uses.
#[derive(Debug, Clone, Copy, PartialEq, Eq)]
pub enum Paint {
    /// For the bookmark's key.
    Cyan,
    /// For the description.
    Green,
    /// For the markers before address and tags.
    Red,
    /// For the address.
    Yellow,
    /// For the tags and the commas between them.
    Blue,
}

/// The text that a terminal shows as `text` in color `paint`: `text` between
/// the escape sequence that switches the color on and the one that resets it.
pub uninterp spec fn colored_text(text: Seq<char>, paint: Paint) -> Seq<char>;

/// Whether `shown` is a way to show `text` in `paint`: in color, or, where
/// colors are switched off, as it is.
pub open spec fn shows(shown: Seq<char>, text: Seq<char>, paint: Paint) -> bool {
    shown == text || shown == colored_text(text, paint)
}

/// Shows `text` in `color`.
///
/// Trusted: the body gives `text` the foreground color with
/// `colored::Colorize::color` and formats the `ColoredString`. The crate
/// writes the text unchanged where its color switch is off, which the
/// environment and the terminal decide, and else the text between the
/// color's escape sequence and the reset sequence.
#[verifier::external_body]
fn paint(text: &str, color: Paint) -> (r: String)
    ensures
        r@ == text@ || r@ == colored_text(text@, color),
{
    let color = match color {
        Paint::Cyan => colored::Color::Cyan,
        Paint::Green => colored::Color::Green,
        Paint::Red => colored::Color::Red,
        Paint::Yellow => colored::Color::Yellow,
        Paint::Blue => colored::Color::Blue,
    };
    text.color(color).to_string()
}

/// The pieces of a listing entry, each as it is shown.
pub struct Shown {
    /// The bookmark's key.
    pub id: String,
    /// The description.
    pub description: String,
    /// The marker before the address.
    pub arrow: String,
    /// The address.
    pub url: String,
    /// The marker before the tags.
    pub hash: String,
    /// The tags.
    pub tags: Vec<String>,
    /// The comma between two tags.
    pub comma: String,
}

impl Shown {
    /// The entry: key and description on the first line, the address on the
    /// second, and, where there are tags, the tags on a third.
    pub open spec fn entry(self) -> Seq<char> {
        let head = self.id@ + ". "@ + self.description@ + "\n  "@ + self.arrow@ + " "@ + self.url@;
        if self.tags@.len() == 0 {
            head
        } else {
            head + "\n"@ + self.hash@ + " "@ + joined(texts(self.tags@), self.comma@)
        }
    }

    /// Whether the pieces show `bookmark`, each piece in its color.
    pub open spec fn shows_bookmark(self, bookmark: Bookmark) -> bool {
        &&& bookmark.bookmark.id >= 0 ==> shows(
            self.id@,
            decimal(bookmark.bookmark.id as nat),
            Paint::Cyan,
        )
        &&& bookmark.bookmark.id < 0 ==> shows(
            self.id@,
            "-"@ + decimal((-bookmark.bookmark.id) as nat),
            Paint::Cyan,
        )
        &&& shows(self.description@, bookmark.bookmark.description@, Paint::Green)
        &&& shows(self.arrow@, ">"@, Paint::Red)
        &&& shows(self.url@, bookmark.bookmark.url@, Paint::Yellow)
        &&& shows(self.hash@, "#"@, Paint::Red)
        &&& shows(self.comma@, ","@, Paint::Blue)
        &&& self.tags@.len() == bookmark.tags@.len()
        &&& forall|i: int|
            0 <= i < self.tags@.len() ==> shows(
                #[trigger] self.tags@[i]@,
                bookmark.tags@[i].tag@,
                Paint::Blue,
            )
    }

    /// Lays the pieces out as one entry.
    pub fn layout(&self) -> (r: String)
        ensures
            r@ == self.entry(),
    {
        let mut out = self.id.clone();
        out.append(". ");
        out.append(self.description.as_str());
        out.append("\n  ");
        out.append(self.arrow.as_str());
        out.append(" ");
        out.append(self.url.as_str());
        if self.tags.len() != 0 {
            out.append("\n");
            out.append(self.hash.as_str());
            out.append(" ");
            let list = join(&self.tags, self.comma.as_str());
            out.append(list.as_str());
        }
        out
    }
}

/// The decimal numeral of `n`, with a minus sign where `n` is negative.
pub fn signed_decimal_string(n: i32) -> (r: String)
    ensures
        n >= 0 ==> r@ == decimal(n as nat),
        n < 0 ==> r@ == "-"@ + decimal((-n) as nat),
{
    if n >= 0 {
        decimal_string(n as u64)
    } else {
        let mut out = "-".to_string();
        let magnitude = decimal_string((-(n as i64)) as u64);
        out.append(magnitude.as_str());
        out
    }
}

impl Bookmark {
    /// A bookmark with a copy of the row and of the tags.
    pub fn new(bookmark: &Bookmarks, tags: &[Tags]) -> (r: Bookmark)
        ensures
            r.bookmark == *bookmark,
            r.tags@ == tags@,
    {
        let mut copied: Vec<Tags> = Vec::new();
        let mut i: usize = 0;
        while i < tags.len()
            invariant
                i <= tags@.len(),
                copied@ == tags@.subrange(0, i as int),
            decreases tags@.len() - i,
        {
            copied.push(tags[i].clone());
            i = i + 1;
            assert(copied@ =~= tags@.subrange(0, i as int));
        }
        assert(copied@ =~= tags@);
        Bookmark { bookmark: bookmark.clone(), tags: copied }
    }

    /// The pieces of this bookmark's listing entry, each shown in its color.
    pub fn shown(&self) -> (r: Shown)
        ensures
            r.shows_bookmark(*self),
    {
        let number = signed_decimal_string(self.bookmark.id);
        let mut tags: Vec<String> = Vec::new();
        let mut i: usize = 0;
        while i < self.tags.len()
            invariant
                i <= self.tags@.len(),
                tags@.len() == i,
                forall|k: int|
                    0 <= k < i ==> shows(#[trigger] tags@[k]@, self.tags@[k].tag@, Paint::Blue),
            decreases self.tags@.len() - i,
        {
            tags.push(paint(self.tags[i].tag.as_str(), Paint::Blue));
            i = i + 1;
        }
        Shown {
            id: paint(number.as_str(), Paint::Cyan),
            description: paint(self.bookmark.description.as_str(), Paint::Green),
            arrow: paint(">", Paint::Red),
            url: paint(self.bookmark.url.as_str(), Paint::Yellow),
            hash: paint("#", Paint::Red),
            tags,
            comma: paint(",", Paint::Blue),
        }
    }

    /// This bookmark's listing entry.
    pub fn render(&self) -> (r: String)
        ensures
            exists|pieces: Shown| pieces.shows_bookmark(*self) && r@ == pieces.entry(),
    {
        let pieces = self.shown();
        pieces.layout()
    }
}

} // verus!
