//! Editing a bookmark in the user's editor: the command to start, the text
//! to put before the user, and what the text that comes back asks for.

use vstd::prelude::*;
use vstd::string::*;
use crate::bookmark::{tag_texts, Bookmark};
use crate::text::{join, joined, lines, lines_of, split, split_on, texts};
use crate::text::lemma_split_on_nonempty;

verus! {

/// The environment variable that names the editor: `VISUAL` where `visual`
/// is `Some(true)`, else `EDITOR`.
pub fn editor_variable(visual: Option<bool>) -> (r: &'static str)
    ensures
        r@ == (if visual == Some(true) {
            "VISUAL"@
        } else {
            "EDITOR"@
        }),
{
    match visual {
        Some(true) => "VISUAL",
        _ => "EDITOR",
    }
}

/// A program and the arguments to start it with.
#[derive(Debug)]
pub struct EditorCommand {
    /// The program.
    pub program: String,
    /// Its arguments.
    pub args: Vec<String>,
}

/// The command that opens `file_path` in `editor`. `editor` is split at each
/// space: the first piece is the program, the others are its arguments, and
/// `file_path` follows them.
pub fn editor_command(editor: &str, file_path: &str) -> (r: EditorCommand)
    ensures
        r.program@ == split_on(editor@, ' ')[0],
        texts(r.args@) == split_on(editor@, ' ').subrange(
            1,
            split_on(editor@, ' ').len() as int,
        ).push(file_path@),
{
    let pieces = split(editor, ' ');
    proof {
        lemma_split_on_nonempty(editor@, ' ');
    }
    let ghost all = split_on(editor@, ' ');
    let program = pieces[0].clone();
    let mut args: Vec<String> = Vec::new();
    let mut i: usize = 1;
    while i < pieces.len()
        invariant
            1 <= i <= pieces@.len(),
            all == texts(pieces@),
            texts(args@) == all.subrange(1, i as int),
        decreases pieces@.len() - i,
    {
        let ghost before = texts(args@);
        let piece = pieces[i].clone();
        assert(piece@ == all[i as int]);
        args.push(piece);
        assert(texts(args@) =~= before.push(all[i as int]));
        i = i + 1;
        assert(texts(args@) =~= all.subrange(1, i as int));
    }
    args.push(file_path.to_string());
    assert(texts(args@) =~= all.subrange(1, all.len() as int).push(file_path@));
    EditorCommand { program, args }
}

/// The text that the user edits: description, address and tags, each under
/// a heading, the tags separated by commas.
pub open spec fn editable_text(bookmark: Bookmark) -> Seq<char> {
    "# Description:\n"@ + bookmark.bookmark.description@ + "\n\n# Url:\n"@ + bookmark.bookmark.url@
        + "\n\n# Tags:\n"@ + joined(tag_texts(bookmark.tags@), ","@)
}

/// The text that the user edits.
pub fn editable_content(bookmark: &Bookmark) -> (r: String)
    ensures
        r@ == editable_text(*bookmark),
{
    let mut tags: Vec<String> = Vec::new();
    let mut i: usize = 0;
    while i < bookmark.tags.len()
        invariant
            i <= bookmark.tags@.len(),
            texts(tags@) == tag_texts(bookmark.tags@).subrange(0, i as int),
        decreases bookmark.tags@.len() - i,
    {
        let ghost before = texts(tags@);
        let tag = bookmark.tags[i].tag.clone();
        assert(tag@ == tag_texts(bookmark.tags@)[i as int]);
        tags.push(tag);
        assert(texts(tags@) =~= before.push(tag_texts(bookmark.tags@)[i as int]));
        i = i + 1;
        assert(texts(tags@) =~= tag_texts(bookmark.tags@).subrange(0, i as int));
    }
    assert(texts(tags@) =~= tag_texts(bookmark.tags@));
    let mut out = "# Description:\n".to_string();
    out.append(bookmark.bookmark.description.as_str());
    out.append("\n\n# Url:\n");
    out.append(bookmark.bookmark.url.as_str());
    out.append("\n\n# Tags:\n");
    let list = join(&tags, ",");
    out.append(list.as_str());
    out
}

/// What an edited text asks for.
#[derive(Debug)]
pub struct Edited {
    /// The new description.
    pub description: String,
    /// The new address.
    pub url: String,
    /// The new tags, where the text holds a line of tags.
    pub tags: Option<Vec<String>>,
}

/// The number of lines below which an edited text cannot be read.
pub const EDITED_MIN_LINES: usize = 5;

/// The number of lines of an edited text that holds a line of tags.
pub const EDITED_LINES_WITH_TAGS: usize = 8;

/// Whether `edited` is what the text with these lines asks for: the
/// description is the second line, the address the fifth, and in a text of
/// eight lines the eighth holds the tags, separated by commas.
pub open spec fn reads_as(edited: Edited, text_lines: Seq<Seq<char>>) -> bool {
    &&& text_lines.len() >= EDITED_MIN_LINES
    &&& edited.description@ == text_lines[1]
    &&& edited.url@ == text_lines[4]
    &&& if text_lines.len() == EDITED_LINES_WITH_TAGS {
        edited.tags matches Some(tags) && texts(tags@) == split_on(text_lines[7], ',')
    } else {
        edited.tags is None
    }
}

/// Reads an edited text. `None` where it has fewer than five lines.
pub fn parse_edited(text: &str) -> (r: Option<Edited>)
    ensures
        lines_of(text@).len() < EDITED_MIN_LINES ==> r is None,
        lines_of(text@).len() >= EDITED_MIN_LINES ==> (r matches Some(edited) && reads_as(
            edited,
            lines_of(text@),
        )),
{
    let all = lines(text);
    if all.len() < EDITED_MIN_LINES {
        return None;
    }
    let tags = if all.len() == EDITED_LINES_WITH_TAGS {
        Some(split(all[7].as_str(), ','))
    } else {
        None
    };
    Some(Edited { description: all[1].clone(), url: all[4].clone(), tags })
}

/// One change to a stored bookmark.
#[derive(Debug)]
pub enum Update {
    /// Replace the address.
    Url(String),
    /// Replace the description.
    Description(String),
    /// Replace the tags.
    Tags(Vec<String>),
}

impl Edited {
    /// The changes to make, in order: the address, the description, and
    /// the tags where the text held a line of them.
    pub fn updates(self) -> (r: Vec<Update>)
        ensures
            r@.len() == (if self.tags is Some {
                3int
            } else {
                2int
            }),
            r@[0] == Update::Url(self.url),
            r@[1] == Update::Description(self.description),
            self.tags matches Some(tags) ==> r@[2] == Update::Tags(tags),
    {
        let mut out: Vec<Update> = Vec::new();
        out.push(Update::Url(self.url));
        out.push(Update::Description(self.description));
        if let Some(tags) = self.tags {
            out.push(Update::Tags(tags));
        }
        out
    }
}

} // verus!
