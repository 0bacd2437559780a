//! Decisions of the notification relay.
//!
//! The outbound chat client itself lives outside the library; these
//! functions fix the choices it must make: whether a channel name is
//! acceptable, which text to post, which workspace member is the
//! configured sender, and which avatar size to pick.

use vstd::prelude::*;
use vstd::string::StrSliceExecFns;
use vstd::string::StringExecFns;

verus! {

/// The text that gets posted: the dedicated notification text when one
/// was given, else the punch note itself.
pub open spec fn chosen_notification_text(message: Seq<char>, slack_message: Seq<char>) -> Seq<
    char,
> {
    if slack_message.len() == 0 {
        message
    } else {
        slack_message
    }
}

/// A channel name is acceptable only when it begins with the `#`
/// marker character.
pub fn channel_has_marker(channel: &str) -> (r: bool)
    ensures
        r == (channel@.len() > 0 && channel@[0] == '#'),
{
    channel.unicode_len() > 0 && channel.get_char(0) == '#'
}

/// Picks the text to post: the dedicated notification text when one was
/// given, else the punch note.
pub fn choose_notification_text(message: &str, slack_message: &str) -> (r: String)
    ensures
        r@ == chosen_notification_text(message@, slack_message@),
{
    if slack_message.is_empty() {
        message.to_owned()
    } else {
        slack_message.to_owned()
    }
}

/// Finds the first workspace member whose name equals the configured
/// sender name.
pub fn find_member(names: &Vec<String>, wanted: &String) -> (r: Option<usize>)
    ensures
        match r {
            Some(i) => i < names@.len() && names@[i as int]@ == wanted@ && forall|j: int|
                0 <= j < i ==> names@[j]@ != wanted@,
            None => forall|j: int| 0 <= j < names@.len() ==> names@[j]@ != wanted@,
        },
{
    let mut i: usize = 0;
    while i < names.len()
        invariant
            0 <= i <= names.len(),
            forall|j: int| 0 <= j < i ==> names@[j]@ != wanted@,
        decreases names.len() - i,
    {
        if names[i].eq(wanted) {
            return Some(i);
        }
        i = i + 1;
    }
    None
}

/// Finds the first avatar resolution equal to the wanted size.
pub fn find_icon_resolution(sizes: &Vec<u32>, wanted: u32) -> (r: Option<usize>)
    ensures
        match r {
            Some(i) => i < sizes@.len() && sizes@[i as int] == wanted && forall|j: int|
                0 <= j < i ==> sizes@[j] != wanted,
            None => forall|j: int| 0 <= j < sizes@.len() ==> sizes@[j] != wanted,
        },
{
    let mut i: usize = 0;
    while i < sizes.len()
        invariant
            0 <= i <= sizes.len(),
            forall|j: int| 0 <= j < i ==> sizes@[j] != wanted,
        decreases sizes.len() - i,
    {
        if sizes[i] == wanted {
            return Some(i);
        }
        i = i + 1;
    }
    None
}

} // verus!
