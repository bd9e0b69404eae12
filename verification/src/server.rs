//! The demo echo server's route surface: a static index page and a
//! websocket echo route, both mounted at the root.

use vstd::prelude::*;

verus! {

/// The body of the index route.
pub fn index() -> (r: &'static str)
    ensures
        r@ == "Hi?"@,
{
    "Hi?"
}

/// The server's mount table: each entry pairs a mount point with the path
/// of the route mounted there, in mount order.
pub fn rocket() -> (r: Vec<(String, String)>)
    ensures
        r@.len() == 2,
        r@[0].0@ == "/"@,
        r@[0].1@ == "/"@,
        r@[1].0@ == "/"@,
        r@[1].1@ == "/echo"@,
{
    let mut mounts: Vec<(String, String)> = Vec::new();
    mounts.push((String::from_str("/"), String::from_str("/")));
    mounts.push((String::from_str("/"), String::from_str("/echo")));
    mounts
}

} // verus!
