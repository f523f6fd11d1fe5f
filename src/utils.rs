use vstd::prelude::*;

verus! {

/// Directory of the application's files, under the home directory.
pub const APP_PATH: &'static str = "/.config/dbv/";

/// The application's directory under `home`.
pub fn get_path_app_folder(home: &str) -> (r: String)
    ensures
        r@ == home@ + APP_PATH@,
{
    String::from_str(home).concat(APP_PATH)
}

/// The file `filename` in the application's directory under `home`.
pub fn get_path_app_file(home: &str, filename: &str) -> (r: String)
    ensures
        r@ == home@ + APP_PATH@ + filename@,
{
    String::from_str(home).concat(APP_PATH).concat(filename)
}

/// Whether two texts hold the same characters.
pub fn same_text(a: &str, b: &str) -> (r: bool)
    ensures
        r == (a@ == b@),
{
    let n = a.unicode_len();
    if n != b.unicode_len() {
        return false;
    }
    let mut i: usize = 0;
    while i < n
        invariant
            n == a@.len(),
            n == b@.len(),
            i <= n,
            forall|j: int| 0 <= j < i ==> a@[j] == b@[j],
        decreases n - i,
    {
        if a.get_char(i) != b.get_char(i) {
            return false;
        }
        i += 1;
    }
    proof {
        assert(a@ =~= b@);
    }
    true
}

/// The characters that Unicode counts as white space.
pub open spec fn is_white_space(c: char) -> bool {
    ||| ('\u{9}' <= c && c <= '\u{d}')
    ||| c == ' '
    ||| c == '\u{85}'
    ||| c == '\u{a0}'
    ||| c == '\u{1680}'
    ||| ('\u{2000}' <= c && c <= '\u{200a}')
    ||| c == '\u{2028}'
    ||| c == '\u{2029}'
    ||| c == '\u{202f}'
    ||| c == '\u{205f}'
    ||| c == '\u{3000}'
}

pub fn char_is_white_space(c: char) -> (r: bool)
    ensures
        r == is_white_space(c),
{
    ('\u{9}' <= c && c <= '\u{d}') || c == ' ' || c == '\u{85}' || c == '\u{a0}' || c == '\u{1680}'
        || ('\u{2000}' <= c && c <= '\u{200a}') || c == '\u{2028}' || c == '\u{2029}' || c
        == '\u{202f}' || c == '\u{205f}' || c == '\u{3000}'
}

/// Whether a text holds white space only (an empty text does).
pub fn is_blank(s: &str) -> (r: bool)
    ensures
        r == (forall|i: int| 0 <= i < s@.len() ==> is_white_space(#[trigger] s@[i])),
{
    let n = s.unicode_len();
    let mut i: usize = 0;
    while i < n
        invariant
            n == s@.len(),
            i <= n,
            forall|j: int| 0 <= j < i ==> is_white_space(#[trigger] s@[j]),
        decreases n - i,
    {
        if !char_is_white_space(s.get_char(i)) {
            return false;
        }
        i += 1;
    }
    true
}

/// Relies on `char::to_string`: a string that holds the one character.
#[verifier::external_body]
pub(crate) fn char_text(c: char) -> (r: String)
    ensures
        r@ == seq![c],
{
    c.to_string()
}

/// What `format!("{:?}", s)` writes for a text `s`: quoted and escaped.
pub uninterp spec fn debug_text(s: Seq<char>) -> Seq<char>;

/// The quoted forms of `items`, separated by `", "`.
pub open spec fn joined_debug_text(items: Seq<Seq<char>>) -> Seq<char>
    decreases items.len(),
{
    if items.len() == 0 {
        Seq::empty()
    } else if items.len() == 1 {
        debug_text(items[0])
    } else {
        joined_debug_text(items.drop_last()) + ", "@ + debug_text(items.last())
    }
}

/// What `format!("{:?}", v)` writes for a list of texts `v`: the quoted
/// items, separated by `", "`, between brackets.
pub open spec fn debug_list_text(items: Seq<Seq<char>>) -> Seq<char> {
    "["@ + joined_debug_text(items) + "]"@
}

/// Relies on `<str as Debug>::fmt`, through `format!("{:?}")`: the quoted,
/// escaped form of a text depends on its characters alone.
#[verifier::external_body]
pub(crate) fn quoted(s: &str) -> (r: String)
    ensures
        r@ == debug_text(s@),
{
    format!("{:?}", s)
}

/// Relies on `<Vec<String> as Debug>::fmt`, through `format!("{:?}")`: a
/// bracket, each item as `<str as Debug>::fmt` writes it with `", "` between
/// items, and a closing bracket.
#[verifier::external_body]
pub(crate) fn quoted_list(items: &Vec<String>) -> (r: String)
    ensures
        r@ == debug_list_text(items.deep_view()),
{
    format!("{:?}", items)
}

} // verus!
