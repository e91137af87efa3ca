//! The transaction log: an ordered sequence of genesis transactions, one
//! well-formed JSON document per line.  The log is append-only from the
//! client's perspective; a refresh extends it and never reorders it.

use vstd::prelude::*;
use crate::error::ErrorCode;
use crate::text::view_lines;
use crate::trusted::{json_text_well_formed, json_well_formed, push_char};

verus! {

/// The ordered genesis transaction log used to build a network engine.
#[derive(Debug, Clone, PartialEq, Eq)]
pub struct PoolTransactions {
    pub txns: Vec<String>,
}

impl View for PoolTransactions {
    type V = Seq<Seq<char>>;

    open spec fn view(&self) -> Seq<Seq<char>> {
        view_lines(self.txns@)
    }
}

impl PoolTransactions {
    /// Every transaction line is one well-formed JSON document.
    pub open spec fn wf(self) -> bool {
        forall|i: int| 0 <= i < self@.len() ==> json_well_formed(self@[i])
    }
}

/// Splitting a text into its non-empty lines, processed left to right:
/// the finished lines and the line still being read.
pub open spec fn lines_acc(s: Seq<char>) -> (Seq<Seq<char>>, Seq<char>)
    decreases s.len(),
{
    if s.len() == 0 {
        (Seq::empty(), Seq::empty())
    } else {
        let (done, cur) = lines_acc(s.drop_last());
        if s.last() == '\n' {
            if cur.len() > 0 {
                (done.push(cur), Seq::empty())
            } else {
                (done, Seq::empty())
            }
        } else {
            (done, cur.push(s.last()))
        }
    }
}

/// The non-empty lines of a text, in order.
pub open spec fn split_nonempty_lines(s: Seq<char>) -> Seq<Seq<char>> {
    let (done, cur) = lines_acc(s);
    if cur.len() > 0 {
        done.push(cur)
    } else {
        done
    }
}

/// Builds a transaction log from a list of transaction lines.  Fails with an
/// `Input` error when the list is empty or a line is not well-formed JSON;
/// on success the log holds exactly the given lines, in order.
pub fn from_json_transactions(txns: Vec<String>) -> (r: Result<PoolTransactions, ErrorCode>)
    ensures
        r is Ok <==> txns@.len() > 0 && (forall|i: int|
            0 <= i < txns@.len() ==> json_well_formed(txns@[i]@)),
        r matches Ok(pt) ==> pt@ == view_lines(txns@) && pt.wf() && txns@.len() > 0,
        r matches Err(e) ==> e matches ErrorCode::Input { .. },
        txns@.len() == 0 ==> (r matches Err(e) && e matches ErrorCode::Input { message }
            && message@ == "No genesis transactions"@),
        txns@.len() > 0 && !(forall|i: int|
            0 <= i < txns@.len() ==> json_well_formed(txns@[i]@)) ==> (r matches Err(e)
            && e matches ErrorCode::Input { message } && message@
            == "Genesis transaction is not well-formed JSON"@),
{
    if txns.len() == 0 {
        return Err(ErrorCode::Input { message: "No genesis transactions".to_owned() });
    }
    let mut i: usize = 0;
    while i < txns.len()
        invariant
            i <= txns@.len(),
            forall|j: int| 0 <= j < i ==> json_well_formed(txns@[j]@),
        decreases txns@.len() - i,
    {
        if !json_text_well_formed(txns[i].as_str()) {
            return Err(ErrorCode::Input {
                message: "Genesis transaction is not well-formed JSON".to_owned(),
            });
        }
        i += 1;
    }
    let pt = PoolTransactions { txns };
    proof {
        assert(pt@ =~= view_lines(pt.txns@));
        assert(forall|j: int| 0 <= j < pt@.len() ==> json_well_formed(#[trigger] pt@[j]));
    }
    Ok(pt)
}

/// Builds a transaction log from a genesis document holding one transaction
/// per line; empty lines are skipped.
pub fn from_json(s: &str) -> (r: Result<PoolTransactions, ErrorCode>)
    ensures
        r is Ok <==> split_nonempty_lines(s@).len() > 0 && (forall|i: int|
            0 <= i < split_nonempty_lines(s@).len() ==> json_well_formed(
                #[trigger] split_nonempty_lines(s@)[i],
            )),
        r matches Ok(pt) ==> pt@ == split_nonempty_lines(s@) && pt.wf()
            && split_nonempty_lines(s@).len() > 0,
        r matches Err(e) ==> e matches ErrorCode::Input { .. },
        split_nonempty_lines(s@).len() == 0 ==> (r matches Err(e)
            && e matches ErrorCode::Input { message }
            && message@ == "No genesis transactions"@),
{
    let n = s.unicode_len();
    let mut lines: Vec<String> = Vec::new();
    let mut cur = String::new();
    let mut i: usize = 0;
    while i < n
        invariant
            n == s@.len(),
            i <= n,
            (view_lines(lines@), cur@) == lines_acc(s@.subrange(0, i as int)),
        decreases n - i,
    {
        let ghost pref = s@.subrange(0, i as int);
        let c = s.get_char(i);
        if c == '\n' {
            if !cur.as_str().is_empty() {
                lines.push(cur);
            }
            cur = String::new();
        } else {
            push_char(&mut cur, c);
        }
        proof {
            assert(s@.subrange(0, i + 1).drop_last() =~= pref);
            assert(s@.subrange(0, i + 1).last() == s@[i as int]);
            if s@[i as int] == '\n' && lines_acc(pref).1.len() > 0 {
                assert(view_lines(lines@) =~= lines_acc(s@.subrange(0, i + 1)).0);
            }
            assert((view_lines(lines@), cur@) == lines_acc(s@.subrange(0, i + 1)));
        }
        i += 1;
    }
    proof {
        assert(s@.subrange(0, n as int) =~= s@);
    }
    if !cur.as_str().is_empty() {
        lines.push(cur);
        proof {
            assert(view_lines(lines@) =~= split_nonempty_lines(s@));
        }
    } else {
        proof {
            assert(view_lines(lines@) =~= split_nonempty_lines(s@));
        }
    }
    proof {
        let ghost ls = split_nonempty_lines(s@);
        assert(ls.len() == lines@.len());
        assert forall|i: int| 0 <= i < ls.len() implies #[trigger] ls[i] == lines@[i]@ by {
            assert(view_lines(lines@)[i] == lines@[i]@);
        }
        if forall|i: int| 0 <= i < lines@.len() ==> json_well_formed(#[trigger] lines@[i]@) {
            assert forall|i: int| 0 <= i < ls.len() implies json_well_formed(#[trigger] ls[i]) by {
                assert(ls[i] == lines@[i]@);
                assert(json_well_formed(lines@[i]@));
            }
        }
        if forall|i: int| 0 <= i < ls.len() ==> json_well_formed(#[trigger] ls[i]) {
            assert forall|i: int|
                0 <= i < lines@.len() implies json_well_formed(#[trigger] lines@[i]@) by {
                assert(ls[i] == lines@[i]@);
                assert(json_well_formed(ls[i]));
            }
        }
    }
    from_json_transactions(lines)
}

impl PoolTransactions {
    /// Appends the given transaction lines to the log, in order.  Fails with
    /// an `Input` error and leaves the log untouched when a new line is not
    /// well-formed JSON; succeeds exactly when every new line is well-formed,
    /// and then the new log is the old log followed by the new lines.
    pub fn extend_from_json(&mut self, new_txns: &Vec<String>) -> (r: Result<(), ErrorCode>)
        ensures
            r is Ok <==> forall|i: int|
                0 <= i < new_txns@.len() ==> json_well_formed(new_txns@[i]@),
            r is Ok ==> final(self)@ == old(self)@ + view_lines(new_txns@),
            r matches Err(e) ==> (e matches ErrorCode::Input { message } && message@
                == "Genesis transaction is not well-formed JSON"@) && *final(self) == *old(self),
            old(self).wf() && (forall|i: int|
                0 <= i < new_txns@.len() ==> json_well_formed(new_txns@[i]@))
                ==> final(self).wf(),
    {
        let mut i: usize = 0;
        while i < new_txns.len()
            invariant
                i <= new_txns@.len(),
                forall|j: int| 0 <= j < i ==> json_well_formed(new_txns@[j]@),
            decreases new_txns@.len() - i,
        {
            if !json_text_well_formed(new_txns[i].as_str()) {
                return Err(ErrorCode::Input {
                    message: "Genesis transaction is not well-formed JSON".to_owned(),
                });
            }
            i += 1;
        }
        let ghost before = self@;
        let mut k: usize = 0;
        while k < new_txns.len()
            invariant
                k <= new_txns@.len(),
                self.txns@ == old(self).txns@ + new_txns@.subrange(0, k as int),
            decreases new_txns@.len() - k,
        {
            let line = new_txns[k].clone();
            self.txns.push(line);
            proof {
                assert(new_txns@.subrange(0, k + 1) =~= new_txns@.subrange(0, k as int).push(
                    new_txns@[k as int],
                ));
                assert(self.txns@ =~= old(self).txns@ + new_txns@.subrange(0, k + 1));
            }
            k += 1;
        }
        proof {
            assert(new_txns@.subrange(0, new_txns@.len() as int) =~= new_txns@);
            assert(self@ =~= before + view_lines(new_txns@));
        }
        Ok(())
    }
}

} // verus!
