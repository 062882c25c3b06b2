//! Comments on issues: the message after one is added.

use vstd::prelude::*;
use crate::text::owned;

verus! {

/// The message after the comment `note_id` is added: `Comment ID added to issue ISSUE.`
pub fn comment_added_message(note_id: &str, issue_id: &str) -> (r: String)
    ensures
        r@ == "Comment "@ + note_id@ + " added to issue "@ + issue_id@ + "."@,
{
    let mut r = owned("Comment ");
    r.append(note_id);
    r.append(" added to issue ");
    r.append(issue_id);
    r.append(".");
    r
}

} // verus!
