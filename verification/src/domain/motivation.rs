//! A motivation of a person and its prompt list.
use crate::domain::motivation_uuid::MotivationUuid;
use crate::text::{i64_text, join_seq, signed_decimal_text};
use vstd::prelude::*;
use vstd::string::*;

verus! {

/// A motivation of a person; times are microseconds since the Unix epoch (UTC).
#[derive(Clone, Debug)]
pub struct Motivation {
    pub uuid: MotivationUuid,
    pub content: String,
    pub priority: i32,
    pub created_at: i64,
    pub ended_at: Option<i64>,
}

/// The line of one motivation: `- (priority <n>) <content>`.
pub open spec fn motivation_line(m: Motivation) -> Seq<char> {
    "- (priority "@ + signed_decimal_text(m.priority as int) + ") "@ + m.content@
}

/// The list of motivations: `None.` or one line each.
pub open spec fn motivations_text(ms: Seq<Motivation>) -> Seq<char> {
    if ms.len() == 0 {
        "None."@
    } else {
        join_seq(ms.map_values(|m: Motivation| motivation_line(m)), "\n"@)
    }
}

impl Motivation {
    /// `None.`, or one line per motivation.
    pub fn many_to_list_text(motivations: &[Motivation]) -> (res: String)
        ensures
            res@ == motivations_text(motivations@),
    {
        if motivations.len() == 0 {
            return String::from_str("None.");
        }
        let ghost lines = motivations@.map_values(|m: Motivation| motivation_line(m));
        let mut res = String::new();
        let mut i: usize = 0;
        while i < motivations.len()
            invariant
                i <= motivations@.len(),
                lines == motivations@.map_values(|m: Motivation| motivation_line(m)),
                res@ == join_seq(lines.take(i as int), "\n"@),
            decreases motivations.len() - i,
        {
            proof {
                assert(lines.take(i + 1).drop_last() =~= lines.take(i as int));
            }
            if i != 0 {
                res.append("\n");
            }
            let line = motivations[i].to_list_text();
            res.append(line.as_str());
            i = i + 1;
        }
        proof {
            assert(lines.take(motivations@.len() as int) =~= lines);
        }
        res
    }

    fn to_list_text(&self) -> (res: String)
        ensures
            res@ == motivation_line(*self),
    {
        let mut s = String::from_str("- (priority ");
        let p = i64_text(self.priority as i64);
        s.append(p.as_str());
        s.append(") ");
        s.append(self.content.as_str());
        s
    }
}

} // verus!
