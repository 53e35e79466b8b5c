//! Where a new item goes in an array or an inline table, with the commas it needs.

use vstd::prelude::*;
use vstd::string::StringExecFns;

use crate::document::{Position, Range};

verus! {

/// Where the items of an array or of an inline table stand in the source, as its syntax
/// gives them: where its opening bracket or brace ends, where the last comment inside it
/// ends where it holds comments but no item, and the span of each item with the span of
/// the comma after it, where there is one.
#[derive(Debug, Clone)]
pub struct SequenceLayout {
    pub open_end: Option<Position>,
    pub dangling_comment_end: Option<Position>,
    pub items: Vec<(Range, Option<Range>)>,
}

/// Where and what to insert to add the item `text` at `index`. In an empty sequence: after
/// its last comment, on a line of its own after a blank line and with a comma; else right
/// after the opening bracket. At index 0: before the first item, with a comma and a line
/// break. Past the last item: after its comma with a line break before and `, ` after the
/// item, or, where it has no comma, after it with `, ` before. Otherwise after the item at
/// `index` (or its comma), on a line of its own, with a comma.
pub open spec fn insertion_of(layout: SequenceLayout, index: int, text: Seq<char>) -> Option<(Position, Seq<char>)> {
    let items = layout.items@;
    if items.len() == 0 {
        match layout.dangling_comment_end {
            Some(p) => Some((p, "\n\n"@ + text + ",\n"@)),
            None => match layout.open_end {
                Some(p) => Some((p, text)),
                None => None,
            },
        }
    } else if index == 0 {
        Some((items[0].0.start, text + ",\n"@))
    } else if index >= items.len() {
        match items.last().1 {
            Some(comma) => Some((comma.end, "\n"@ + text + ", "@)),
            None => Some((items.last().0.end, ", "@ + text)),
        }
    } else {
        Some(
            (
                match items[index].1 {
                    Some(comma) => comma.end,
                    None => items[index].0.end,
                },
                "\n"@ + text + ",\n"@,
            ),
        )
    }
}

/// Where and what to insert to add an item; see `insertion_of`.
pub fn calculate_insertion(layout: &SequenceLayout, index: usize, text: &str) -> (r: Option<(Position, String)>)
    ensures
        match insertion_of(*layout, index as int, text@) {
            Some((p, t)) => r matches Some(x) && x.0 == p && x.1@ == t,
            None => r is None,
        },
{
    let n = layout.items.len();
    if n == 0 {
        return match layout.dangling_comment_end {
            Some(p) => {
                let mut t = String::from_str("\n\n");
                t.append(text);
                t.append(",\n");
                Some((p, t))
            },
            None => match layout.open_end {
                Some(p) => Some((p, String::from_str(text))),
                None => None,
            },
        };
    }
    if index == 0 {
        let mut t = String::from_str(text);
        t.append(",\n");
        return Some((layout.items[0].0.start, t));
    }
    if index >= n {
        let (value, comma) = layout.items[n - 1];
        return match comma {
            Some(c) => {
                let mut t = String::from_str("\n");
                t.append(text);
                t.append(", ");
                Some((c.end, t))
            },
            None => {
                let mut t = String::from_str(", ");
                t.append(text);
                Some((value.end, t))
            },
        };
    }
    let (value, comma) = layout.items[index];
    let at = match comma {
        Some(c) => c.end,
        None => value.end,
    };
    let mut t = String::from_str("\n");
    t.append(text);
    t.append(",\n");
    Some((at, t))
}

} // verus!
