//! The statement-level profiler: a pre-statement hook timestamps every
//! statement span before it executes, and the output is one row per
//! distinct source span with its execution count and cumulative time.
//!
//! Time is charged to a statement when the next statement's hook fires,
//! so the statement that is still innermost when output is requested has
//! its final run uncharged. Enabling this profiler does not disable
//! garbage collection.

use vstd::prelude::*;
use crate::codemap::{Codemap, Span};
use crate::render::{append_u64, dec_u64};

verus! {

/// One output row: a source span of one file, how many times its
/// statement began executing (as observed by the next hook), and the
/// cumulative time spent in it.
#[derive(Debug)]
pub struct StmtRow {
    pub file: String,
    pub span: Span,
    pub count: u64,
    pub time: u64,
}

/// The statement observed by the most recent hook, awaiting its charge.
#[derive(Debug)]
pub struct LastStmt {
    pub file: String,
    pub span: Span,
    pub time: u64,
}

/// The statement profiler.
#[derive(Debug)]
pub struct StmtProfile {
    pub enabled: bool,
    pub codemap: Option<Codemap>,
    pub last: Option<LastStmt>,
    pub rows: Vec<StmtRow>,
}

/// The file name statements are currently attributed to.
pub open spec fn current_file(p: StmtProfile) -> Seq<char> {
    match p.codemap {
        Option::Some(c) => c.filename@,
        Option::None => Seq::<char>::empty(),
    }
}

/// `out` is `rows` after charging the pending statement `l` with the time
/// up to `now`: the first row with the same file and span absorbs the
/// charge, else a fresh row is appended.
pub open spec fn charged(rows: Seq<StmtRow>, l: LastStmt, now: u64, out: Seq<StmtRow>) -> bool {
    (exists|j: int|
        {
            &&& 0 <= j < rows.len()
            &&& rows[j].file@ == l.file@ && rows[j].span == l.span
            &&& (forall|k: int|
                0 <= k < j ==> !(rows[k].file@ == l.file@ && rows[k].span == l.span))
            &&& out =~= rows.update(
                j,
                StmtRow {
                    file: rows[j].file,
                    span: rows[j].span,
                    count: rows[j].count.saturating_add(1),
                    time: rows[j].time.saturating_add(now.saturating_sub(l.time)),
                },
            )
        }) || {
        &&& (forall|k: int|
            0 <= k < rows.len() ==> !(rows[k].file@ == l.file@ && rows[k].span == l.span))
        &&& out.len() == rows.len() + 1
        &&& out.drop_last() =~= rows
        &&& out.last().file@ == l.file@
        &&& out.last().span == l.span
        &&& out.last().count == 1
        &&& out.last().time == now.saturating_sub(l.time)
    }
}

/// The transition `before_stmt` makes while the profiler is enabled,
/// with the hook firing at wall-clock reading `now`.
pub open spec fn stmt_profile_step(
    pre: StmtProfile,
    span: Span,
    now: u64,
    post: StmtProfile,
) -> bool {
    &&& post.enabled
    &&& post.codemap == pre.codemap
    &&& (post.last matches Option::Some(l2) && l2.file@ == current_file(pre) && l2.span == span
        && l2.time == now)
    &&& match pre.last {
        Option::None => post.rows@ == pre.rows@,
        Option::Some(l) => charged(pre.rows@, l, now, post.rows@),
    }
}

impl StmtProfile {
    pub fn new() -> (p: StmtProfile)
        ensures
            !p.enabled,
            p.codemap is None,
            p.last is None,
            p.rows@ =~= Seq::<StmtRow>::empty(),
    {
        StmtProfile { enabled: false, codemap: Option::None, last: Option::None, rows: Vec::new() }
    }

    pub fn enable(&mut self)
        ensures
            *final(self) == (StmtProfile { enabled: true, ..*old(self) }),
    {
        self.enabled = true;
    }

    /// Install the codemap statements are resolved against from now on.
    pub fn set_codemap(&mut self, codemap: Codemap)
        ensures
            *final(self) == (StmtProfile { codemap: Option::Some(codemap), ..*old(self) }),
    {
        self.codemap = Option::Some(codemap);
    }

    /// The pre-statement hook: charge the pending statement with the time
    /// elapsed until `now`, and make `span` the pending statement. A
    /// no-op while the profiler is disabled.
    pub fn before_stmt(&mut self, span: Span, now: u64)
        ensures
            !old(self).enabled ==> *final(self) == *old(self),
            old(self).enabled ==> stmt_profile_step(*old(self), span, now, *final(self)),
    {
        if !self.enabled {
            return;
        }
        let pending = self.last.take();
        match pending {
            Option::None => {},
            Option::Some(l) => {
                let ghost pre = self.rows@;
                let mut j: usize = 0;
                let mut found = false;
                while j < self.rows.len() && !found
                    invariant
                        j <= self.rows@.len(),
                        self.rows@ == pre,
                        !found ==> forall|k: int|
                            0 <= k < j ==> !(pre[k].file@ == l.file@ && pre[k].span == l.span),
                        found ==> j < pre.len() && pre[j as int].file@ == l.file@
                            && pre[j as int].span == l.span && (forall|k: int|
                            0 <= k < j ==> !(pre[k].file@ == l.file@ && pre[k].span == l.span)),
                    decreases pre.len() - j + if found { 0int } else { 1int },
                {
                    if self.rows[j].file.eq(&l.file) && self.rows[j].span == l.span {
                        found = true;
                    } else {
                        j = j + 1;
                    }
                }
                let elapsed = now.saturating_sub(l.time);
                if found {
                    let mut row = self.rows.remove(j);
                    row.count = row.count.saturating_add(1);
                    row.time = row.time.saturating_add(elapsed);
                    self.rows.insert(j, row);
                    proof {
                        assert(self.rows@ =~= pre.update(
                            j as int,
                            StmtRow {
                                file: pre[j as int].file,
                                span: pre[j as int].span,
                                count: pre[j as int].count.saturating_add(1),
                                time: pre[j as int].time.saturating_add(now.saturating_sub(l.time)),
                            },
                        ));
                    }
                } else {
                    self.rows.push(StmtRow { file: l.file, span: l.span, count: 1, time: elapsed });
                    proof {
                        assert(self.rows@.drop_last() =~= pre);
                    }
                }
            },
        }
        let file: String = match &self.codemap {
            Option::Some(c) => c.filename.clone(),
            Option::None => String::new(),
        };
        self.last = Option::Some(LastStmt { file, span, time: now });
    }

    /// The CSV encoding of the collected rows:
    /// `file,span_begin,span_end,calls,time_ns`, one row per distinct
    /// span, or `None` while the profiler was never enabled.
    pub fn gen(&self) -> (r: Option<String>)
        ensures
            !self.enabled ==> r is None,
            self.enabled ==> (r matches Option::Some(s) && s@ == stmt_csv(self.rows@)),
    {
        if !self.enabled {
            return Option::None;
        }
        let mut s = String::new();
        proof {
            reveal_strlit("file,span_begin,span_end,calls,time_ns\n");
        }
        s.append("file,span_begin,span_end,calls,time_ns\n");
        let mut i: usize = 0;
        proof {
            assert(self.rows@.take(0) =~= Seq::<StmtRow>::empty());
            assert(s@ =~= stmt_csv(self.rows@.take(0)));
        }
        while i < self.rows.len()
            invariant
                i <= self.rows@.len(),
                s@ == stmt_csv(self.rows@.take(i as int)),
            decreases self.rows@.len() - i,
        {
            let row = &self.rows[i];
            let ghost line_start = s@;
            proof {
                reveal_strlit(",");
                reveal_strlit("\n");
            }
            s.append(row.file.as_str());
            s.append(",");
            append_u64(&mut s, row.span.begin as u64);
            s.append(",");
            append_u64(&mut s, row.span.end as u64);
            s.append(",");
            append_u64(&mut s, row.count);
            s.append(",");
            append_u64(&mut s, row.time);
            s.append("\n");
            proof {
                assert(s@ =~= line_start + stmt_row_line(self.rows@[i as int]));
                assert(self.rows@.take(i + 1).drop_last() =~= self.rows@.take(i as int));
                assert(self.rows@.take(i + 1).last() == self.rows@[i as int]);
                assert(s@ =~= stmt_csv(self.rows@.take(i + 1)));
            }
            i = i + 1;
        }
        proof {
            assert(self.rows@.take(self.rows@.len() as int) =~= self.rows@);
        }
        Option::Some(s)
    }
}

/// One CSV row of the statement profile.
pub open spec fn stmt_row_line(r: StmtRow) -> Seq<char> {
    r.file@ + ","@ + dec_u64(r.span.begin as nat) + ","@ + dec_u64(r.span.end as nat) + ","@
        + dec_u64(r.count as nat) + ","@ + dec_u64(r.time as nat) + "\n"@
}

/// The whole statement-profile CSV: header plus one row per span.
pub open spec fn stmt_csv(rows: Seq<StmtRow>) -> Seq<char>
    decreases rows.len(),
{
    if rows.len() == 0 {
        "file,span_begin,span_end,calls,time_ns\n"@
    } else {
        stmt_csv(rows.drop_last()) + stmt_row_line(rows.last())
    }
}

} // verus!
