//! The launcher dialogs of the bookmark manager, and what each answer leads
//! to.

use vstd::prelude::*;
use vstd::string::*;
use crate::bookmark::Bookmark;
use crate::rofi::{accepted, custom_code, without, Error, ExtraView, Format, Rofi, RofiView, Width};
use crate::rofi::SUCCESS_CODE;
use crate::text::texts;

verus! {

/// The custom action that adds a bookmark.
pub const ADD_ACTION: u32 = 1;

/// The custom action that deletes the selected bookmark.
pub const DELETE_ACTION: u32 = 2;

/// The key chord of the add action.
pub const ADD_SHORTCUT: &'static str = "Alt+n";

/// The key chord of the delete action.
pub const DELETE_SHORTCUT: &'static str = "Alt+d";

/// The exit code of a plain acceptance.
pub const OPEN_CODE: i32 = 0;

/// The exit code of the add action.
pub const ADD_CODE: i32 = 10;

/// The exit code of the delete action.
pub const DELETE_CODE: i32 = 11;

/// The hint shown below the input.
pub const HINT: &'static str = "<b>Alt+n</b>: Add new bookmark <b>Alt+d</b>: Delete bookmark";

/// The program that opens an address.
pub const BROWSER: &'static str = "firefox";

/// The addresses of the bookmarks, in order.
pub open spec fn url_texts(bookmarks: Seq<Bookmark>) -> Seq<Seq<char>> {
    Seq::new(bookmarks.len(), |i: int| bookmarks[i].bookmark.url@)
}

/// The addresses of the bookmarks, in order: the candidates of the main
/// dialog.
pub fn urls(bookmarks: &Vec<Bookmark>) -> (r: Vec<String>)
    ensures
        texts(r@) == url_texts(bookmarks@),
{
    let mut out: Vec<String> = Vec::new();
    let mut i: usize = 0;
    while i < bookmarks.len()
        invariant
            i <= bookmarks@.len(),
            texts(out@) == url_texts(bookmarks@).subrange(0, i as int),
        decreases bookmarks@.len() - i,
    {
        let ghost before = texts(out@);
        let url = bookmarks[i].bookmark.url.clone();
        assert(url@ == url_texts(bookmarks@)[i as int]);
        out.push(url);
        assert(texts(out@) =~= before.push(url_texts(bookmarks@)[i as int]));
        i = i + 1;
        assert(texts(out@) =~= url_texts(bookmarks@).subrange(0, i as int));
    }
    assert(texts(out@) =~= url_texts(bookmarks@));
    out
}

/// A window with nothing configured but these candidates and arguments.
pub open spec fn plain_window(elements: Seq<Seq<char>>, extras: Seq<ExtraView>) -> RofiView {
    RofiView {
        elements,
        case_sensitive: false,
        lines: None,
        message: None,
        width: Width::Unset,
        format: Format::Text,
        extras,
        sort: false,
    }
}

/// The main dialog over `books`: the add and delete actions bound to their
/// key chords, a prompt, and the hint.
pub fn bookmark_menu<'a>(books: &'a [String]) -> (r: Rofi<'a>)
    ensures
        r@ == plain_window(
            texts(books@),
            seq![
                ExtraView::Keybinding(ADD_ACTION, ADD_SHORTCUT@),
                ExtraView::Keybinding(DELETE_ACTION, DELETE_SHORTCUT@),
                ExtraView::Prompt("> "@),
                ExtraView::Message(HINT@),
            ],
        ),
{
    let mut rofi = Rofi::new(books);
    rofi.kb_custom(ADD_ACTION, ADD_SHORTCUT).kb_custom(DELETE_ACTION, DELETE_SHORTCUT).prompt(
        "> ",
    ).message(HINT);
    proof {
        let bound = seq![
            ExtraView::Keybinding(ADD_ACTION, ADD_SHORTCUT@),
            ExtraView::Keybinding(DELETE_ACTION, DELETE_SHORTCUT@),
        ];
        reveal_with_fuel(without, 4);
        assert(without(bound, ExtraView::Prompt("> "@)) =~= bound);
        let prompted = bound.push(ExtraView::Prompt("> "@));
        assert(prompted.drop_last() =~= bound);
        assert(without(prompted, ExtraView::Message(HINT@)) =~= prompted);
        assert(rofi@.extras =~= prompted.push(ExtraView::Message(HINT@)));
        assert(rofi@.extras =~= seq![
            ExtraView::Keybinding(ADD_ACTION, ADD_SHORTCUT@),
            ExtraView::Keybinding(DELETE_ACTION, DELETE_SHORTCUT@),
            ExtraView::Prompt("> "@),
            ExtraView::Message(HINT@),
        ]);
    }
    rofi
}

/// The dialog that asks for the address of a new bookmark, over
/// `candidates`: what the clipboard holds.
pub fn url_menu<'a>(candidates: &'a [String]) -> (r: Rofi<'a>)
    ensures
        r@ == plain_window(texts(candidates@), seq![ExtraView::Prompt("URL"@)]),
{
    let mut rofi = Rofi::new(candidates);
    rofi.prompt("URL");
    assert(rofi@.extras =~= seq![ExtraView::Prompt("URL"@)]);
    rofi
}

/// The dialog that asks for the description of a new bookmark. It has no
/// candidates.
pub fn description_menu() -> (r: Rofi<'static>)
    ensures
        r@ == plain_window(seq![], seq![ExtraView::Prompt("Description"@)]),
{
    let none: &'static [String] = &[];
    let mut rofi = Rofi::new(none);
    rofi.prompt("Description");
    assert(rofi@.extras =~= seq![ExtraView::Prompt("Description"@)]);
    assert(rofi@.elements =~= seq![]);
    rofi
}

/// The codes that the main dialog is read by are those that the launcher
/// uses for the two custom actions and for a plain acceptance.
pub proof fn law_action_codes()
    ensures
        custom_code(ADD_ACTION as int) == ADD_CODE,
        custom_code(DELETE_ACTION as int) == DELETE_CODE,
        OPEN_CODE == SUCCESS_CODE,
        accepted(Some(ADD_CODE)),
        accepted(Some(DELETE_CODE)),
        accepted(Some(OPEN_CODE)),
{
}

/// What the main dialog's answer leads to.
#[derive(Debug)]
pub enum Action {
    /// Ask for a new bookmark and add it.
    Add,
    /// Delete the bookmark with this key.
    Delete(i32),
    /// Open this address.
    Open(String),
    /// Do nothing: the dialog gave an error.
    Nothing,
}

/// Whether `action` is what answer `ret` of the main dialog over
/// `bookmarks` leads to.
pub open spec fn leads_to(
    ret: Result<(i32, Option<usize>), Error>,
    bookmarks: Seq<Bookmark>,
    action: Option<Action>,
) -> bool {
    match ret {
        Err(_) => action == Some(Action::Nothing),
        Ok((code, selected)) => if code == ADD_CODE {
            action == Some(Action::Add)
        } else if (code == DELETE_CODE || code == OPEN_CODE) && selected is Some && selected->0
            < bookmarks.len() {
            if code == DELETE_CODE {
                action == Some(Action::Delete(bookmarks[selected->0 as int].bookmark.id))
            } else {
                action matches Some(Action::Open(url)) && url@ == bookmarks[selected->0 as int].bookmark.url@
            }
        } else {
            action is None
        },
    }
}

/// What to do on answer `ret` of the main dialog over `bookmarks`: add on
/// the add action, delete the selected bookmark on the delete action, open
/// the selected address on a plain acceptance, nothing on an error. `None`
/// on any other answer: there is no action for it.
pub fn command_rofi(ret: Result<(i32, Option<usize>), Error>, bookmarks: &Vec<Bookmark>) -> (r:
    Option<Action>)
    ensures
        leads_to(ret, bookmarks@, r),
{
    match ret {
        Err(_) => Some(Action::Nothing),
        Ok((code, selected)) => {
            if code == ADD_CODE {
                return Some(Action::Add);
            }
            match selected {
                Some(index) => {
                    if index >= bookmarks.len() {
                        None
                    } else if code == DELETE_CODE {
                        Some(Action::Delete(bookmarks[index].bookmark.id))
                    } else if code == OPEN_CODE {
                        Some(Action::Open(bookmarks[index].bookmark.url.clone()))
                    } else {
                        None
                    }
                },
                None => None,
            }
        },
    }
}

/// What a dialog of the add sequence entered: the text, or `aborted` where
/// the dialog gave an error. `None` where the dialog succeeded without a
/// text.
pub fn entered(ret: Result<(i32, Option<String>), Error>, aborted: &str) -> (r: Option<
    Result<String, String>,
>)
    ensures
        ret is Err ==> (r matches Some(Err(why)) && why@ == aborted@),
        ret matches Ok((_, Some(text))) ==> r == Some(Ok::<String, String>(text)),
        ret matches Ok((_, None)) ==> r is None,
{
    match ret {
        Err(_) => Some(Err(aborted.to_string())),
        Ok((_, Some(text))) => Some(Ok(text)),
        Ok((_, None)) => None,
    }
}

} // verus!
