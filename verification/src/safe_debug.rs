//! Descriptions of requests that are safe to write to a log.

use vstd::prelude::*;
use vstd::string::*;

use crate::ipc::{Request, RequestView};

verus! {

/// A text as `<str as Debug>::fmt` writes it: between double quotes, with
/// the characters that need it escaped.
pub uninterp spec fn debug_text(text: Seq<char>) -> Seq<char>;

/// `<str as Debug>::fmt`, through `format!`: what it writes is a function of
/// the text alone; it is given the name [`debug_text`].
#[verifier::external_body]
fn quoted(text: &str) -> (r: String)
    ensures
        r@ == debug_text(text@),
{
    format!("{:?}", text)
}

/// The texts of a list as they are written in a log, each followed by a
/// comma and a space but the last.
pub open spec fn debug_items(items: Seq<Seq<char>>) -> Seq<char>
    decreases items.len(),
{
    if items.len() == 0 {
        Seq::empty()
    } else if items.len() == 1 {
        debug_text(items[0])
    } else {
        debug_items(items.drop_last()) + ", "@ + debug_text(items.last())
    }
}

/// A list of texts as it is written in a log: between square brackets.
pub open spec fn debug_list(items: Seq<Seq<char>>) -> Seq<char> {
    "["@ + debug_items(items) + "]"@
}

/// A request as it is written in a log. The answer to a question of the
/// daemon may be a password: nothing of it is written.
pub open spec fn safe_text(request: RequestView) -> Seq<char> {
    match request {
        RequestView::CancelSession => "CancelSession"@,
        RequestView::CreateSession { username } => "CreateSession { username: "@ + debug_text(
            username,
        ) + " }"@,
        RequestView::PostAuthMessageResponse { response } => "PostAuthMessageResponse"@,
        RequestView::StartSession { cmd, env } => "StartSession { cmd: "@ + debug_list(cmd)
            + ", env: "@ + debug_list(env) + " }"@,
    }
}

/// Writes a list of texts as a log shows it.
fn list(items: &Vec<String>) -> (r: String)
    ensures
        r@ == debug_list(items.deep_view()),
{
    let ghost all = items.deep_view();
    let mut r = String::new();
    let mut i: usize = 0;
    while i < items.len()
        invariant
            i <= items.len(),
            all == items.deep_view(),
            r@ == debug_items(all.subrange(0, i as int)),
        decreases items.len() - i,
    {
        assert(all.subrange(0, i + 1).drop_last() == all.subrange(0, i as int));
        assert(all.subrange(0, i + 1).last() == items[i as int]@);
        if i > 0 {
            r.append(", ");
        }
        let item = quoted(items[i].as_str());
        r.append(item.as_str());
        assert(r@ =~= debug_items(all.subrange(0, i + 1)));
        i += 1;
    }
    assert(all.subrange(0, items.len() as int) == all);
    let mut out = String::from_str("[");
    out.append(r.as_str());
    out.append("]");
    out
}

/// A description that holds no secret.
pub trait SafeDebug {
    /// The description.
    spec fn safe(&self) -> Seq<char>;

    /// Returns the description.
    fn safe_repr(&self) -> (r: String)
        ensures
            r@ == self.safe(),
    ;
}

impl SafeDebug for Request {
    open spec fn safe(&self) -> Seq<char> {
        safe_text(self@)
    }

    fn safe_repr(&self) -> (r: String) {
        match self {
            Request::CancelSession => String::from_str("CancelSession"),
            Request::CreateSession { username } => {
                let mut r = String::from_str("CreateSession { username: ");
                let name = quoted(username.as_str());
                r.append(name.as_str());
                r.append(" }");
                r
            },
            Request::PostAuthMessageResponse { .. } => String::from_str("PostAuthMessageResponse"),
            Request::StartSession { cmd, env } => {
                let mut r = String::from_str("StartSession { cmd: ");
                let cmd = list(cmd);
                r.append(cmd.as_str());
                r.append(", env: ");
                let env = list(env);
                r.append(env.as_str());
                r.append(" }");
                r
            },
        }
    }
}

} // verus!
