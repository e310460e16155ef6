//! The text shown in the window's title bar.

use vstd::prelude::*;
use vstd::string::*;

verus! {

/// The upper camel case form of a text, as heck computes it.
pub uninterp spec fn upper_camel_of(s: Seq<char>) -> Seq<char>;

/// Relies on heck's `AsUpperCamelCase`: its display form is the upper camel
/// case form of the text, which depends on the text alone.
#[verifier::external_body]
fn upper_camel_case(s: &str) -> (r: String)
    ensures
        r@ == upper_camel_of(s@),
{
    heck::AsUpperCamelCase(s).to_string()
}

/// The application's display name, made from its package name: the words of
/// `package` joined in upper camel case (`"my-editor"` gives `"MyEditor"`).
pub fn app_name(package: &str) -> (r: String)
    ensures
        r@ == upper_camel_of(package@),
{
    upper_camel_case(package)
}

/// The window title for a document called `name`: the name, followed by a
/// `*` when the document has unsaved changes.
pub fn window_title(name: &str, edited: bool) -> (r: String)
    ensures
        edited ==> r@ == name@.push('*'),
        !edited ==> r@ == name@,
{
    let mut title = name.to_owned();
    if edited {
        title.append("*");
        proof {
            reveal_strlit("*");
            assert(title@ =~= name@.push('*'));
        }
    }
    title
}

} // verus!
