//! The page address handed to the secondary lock-overlay windows.
//!
//! When the overlay-lock mode spreads to further monitors, each extra window
//! is pointed at the application page in lock-slave mode, with the firing
//! task's display data carried in the query string.  The query string is
//! percent-encoded by the `url` crate.

use vstd::prelude::*;
use vstd::string::StringExecFns;

verus! {

/// The display data of the task shown on the lock overlay.
pub struct LockTaskArgs {
    pub title: String,
    pub desc: String,
    pub duration: i32,
    pub icon: String,
}

/// What `url::form_urlencoded` produces for the four key/value pairs
/// `title`, `desc`, `duration` and `icon`: a function of the arguments
/// alone.
pub uninterp spec fn lock_query_of(
    title: Seq<char>,
    desc: Seq<char>,
    duration: int,
    icon: Seq<char>,
) -> Seq<char>;

/// Relies on `url::form_urlencoded::Serializer` (its `new`, `append_pair`
/// and `finish` methods): percent-encodes the four key/value pairs and joins
/// them with `&`; the output depends on the arguments alone.
#[verifier::external_body]
fn encode_lock_query(title: &String, desc: &String, duration: i32, icon: &String) -> (r: String)
    ensures
        r@ == lock_query_of(title@, desc@, duration as int, icon@),
{
    url::form_urlencoded::Serializer::new(String::new())
        .append_pair("title", title)
        .append_pair("desc", desc)
        .append_pair("duration", &duration.to_string())
        .append_pair("icon", icon)
        .finish()
}

/// The address a lock-overlay window of the given task is pointed at.
pub open spec fn lock_slave_url_of(task: Option<(Seq<char>, Seq<char>, int, Seq<char>)>) -> Seq<
    char,
> {
    match task {
        None => "index.html?mode=lock_slave"@,
        Some((title, desc, duration, icon)) => "index.html?mode=lock_slave&"@ + lock_query_of(
            title,
            desc,
            duration,
            icon,
        ),
    }
}

/// Builds the page address for a secondary lock-overlay window: the bare
/// lock-slave page when no task is shown, otherwise the page with the task's
/// display data in the query string.
pub fn lock_slave_url(task: Option<&LockTaskArgs>) -> (r: String)
    ensures
        r@ == lock_slave_url_of(
            match task {
                Some(a) => Some((a.title@, a.desc@, a.duration as int, a.icon@)),
                None => None,
            },
        ),
{
    match task {
        None => "index.html?mode=lock_slave".to_owned(),
        Some(args) => {
            let q = encode_lock_query(&args.title, &args.desc, args.duration, &args.icon);
            let base = "index.html?mode=lock_slave&".to_owned();
            base.concat(q.as_str())
        },
    }
}

} // verus!
