//! What the news and episode sources share: the placeholder description,
//! relative timestamps and the message frame.

use vstd::prelude::*;
use vstd::string::*;
use crate::layout::{shows_all, Block};
use crate::models::{Component, Container, CONTAINER_KIND};
use crate::text::{i64_to_string, int_decimal};

pub mod ann;

verus! {

broadcast use vstd::string::group_string_axioms;

/// Shown when an item has no description.
pub open spec fn no_description() -> Seq<char> {
    "*No description available.*"@
}

/// Discord's relative-time markup for Unix time `t`: `<t:T:R>`.
pub open spec fn relative_time_tag(t: int) -> Seq<char> {
    "<t:"@ + int_decimal(t) + ":R>"@
}

/// Discord's relative-time markup for Unix time `t`.
pub fn relative_time(t: i64) -> (r: String)
    ensures
        r@ == relative_time_tag(t as int),
{
    let mut r = "<t:".to_string();
    r.append(i64_to_string(t).as_str());
    r.append(":R>");
    r
}

/// Whether `comps` is one container, with accent colour `color`, around
/// components that show `blocks`.
pub open spec fn is_message(comps: Seq<Component>, color: u32, blocks: Seq<Block>) -> bool {
    &&& comps.len() == 1
    &&& comps[0] matches Component::Container(c)
    &&& c.kind == CONTAINER_KIND
    &&& c.accent_color == Some(color)
    &&& shows_all(c.components@, blocks)
}

/// Frames laid-out components as a message: one container with the accent
/// colour `color`.
pub fn message_components(color: u32, inner: Vec<Component>) -> (r: Vec<Component>)
    ensures
        r@.len() == 1,
        r@[0] matches Component::Container(c) && c.kind == CONTAINER_KIND && c.accent_color
            == Some(color) && c.components == inner,
{
    let mut r: Vec<Component> = Vec::new();
    r.push(Component::Container(Container::new(Some(color), inner)));
    r
}

} // verus!
