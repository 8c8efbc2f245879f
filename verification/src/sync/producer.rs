//! The group-import producer's transaction: for one group, the courses the
//! calendar fetch listed are confirmed one by one through the coordinator,
//! and only a fully confirmed set is ever committed to the store.
//!
//! The commit replaces the group's associations in one step: between a
//! commit and the next, readers see either the complete set of the latest
//! fetch or the complete previous state — never a partial set. A failed
//! confirmation marks the whole import failed, and a failed import commits
//! nothing.

use vstd::prelude::*;

use crate::celcat::fetchable::calendar::CourseId;
use crate::db::{
    spec_has_association, spec_remove_group, Db, GroupCourse,
};
use crate::rpc::error::RpcError;
use crate::wait::Outcome;

verus! {

/// One group's import transaction.
pub struct GroupImport {
    group: i32,
    staged: Vec<String>,
    failed: bool,
}

impl GroupImport {
    /// The group this import is for.
    pub closed spec fn spec_group(&self) -> i32 {
        self.group
    }

    /// The courses confirmed so far, in confirmation order.
    pub closed spec fn spec_staged(&self) -> Seq<Seq<char>> {
        self.staged@.map_values(|s: String| s@)
    }

    /// Whether some confirmation failed: the whole import then aborts.
    pub closed spec fn spec_failed(&self) -> bool {
        self.failed
    }

    /// Opens the import of one group: nothing staged, nothing failed.
    pub fn begin(group: i32) -> (t: GroupImport)
        ensures
            t.spec_group() == group,
            t.spec_staged() == Seq::<Seq<char>>::empty(),
            !t.spec_failed(),
    {
        let t = GroupImport { group, staged: Vec::new(), failed: false };
        proof {
            assert(t.spec_staged() =~= Seq::<Seq<char>>::empty());
        }
        t
    }

    /// Records what the coordinator answered for one course: a success
    /// stages the association, a failure marks the whole import failed, as
    /// the group's transaction must abort rather than commit a partial
    /// set.
    pub fn record_outcome(&mut self, course: &CourseId, outcome: Outcome)
        ensures
            final(self).spec_group() == old(self).spec_group(),
            outcome is Success ==> final(self).spec_staged() == old(self).spec_staged().push(
                course@,
            ) && final(self).spec_failed() == old(self).spec_failed(),
            outcome is Failure ==> final(self).spec_staged() == old(self).spec_staged()
                && final(self).spec_failed(),
    {
        match outcome {
            Outcome::Success => {
                self.staged.push(course.0.clone());
                proof {
                    assert(self.spec_staged() =~= old(self).spec_staged().push(course@));
                }
            },
            Outcome::Failure => {
                self.failed = true;
            },
        }
    }

    /// Closes the import. A failed import commits nothing: the store is
    /// exactly as it was. A successful one commits, in one step, exactly
    /// the staged set: the group's previous associations are gone and one
    /// association per confirmed course stands, in confirmation order;
    /// every other group's rows are untouched.
    pub fn commit(self, db: &mut Db) -> (r: Result<(), RpcError>)
        requires
            old(db).wf(),
        ensures
            final(db).wf(),
            self.spec_failed() ==> r == Err::<(), RpcError>(RpcError::UnknownError) && *final(db)
                == *old(db),
            !self.spec_failed() ==> r == Ok::<(), RpcError>(())
                && crate::db::spec_same_but_associations(*old(db), *final(db)) && ({
                let kept = spec_remove_group(old(db).spec_groups_courses(), self.spec_group());
                let post = final(db).spec_groups_courses();
                &&& post.len() == kept.len() + self.spec_staged().len()
                &&& post.subrange(0, kept.len() as int) == kept
                &&& forall|i: int|
                    0 <= i < self.spec_staged().len() ==> (#[trigger] post[kept.len() + i]).group_id
                        == self.spec_group() && post[kept.len() + i].course_id@
                        == self.spec_staged()[i]
            }),
    {
        if self.failed {
            return Err(RpcError::UnknownError);
        }
        let ghost pre_db = *db;
        db.delete_group_courses(self.group);
        let ghost kept = db.spec_groups_courses();
        let n = self.staged.len();
        let mut i: usize = 0;
        while i < n
            invariant
                i <= n,
                db.wf(),
                n == self.staged@.len(),
                n == self.spec_staged().len(),
                kept == spec_remove_group(pre_db.spec_groups_courses(), self.spec_group()),
                crate::db::spec_same_but_associations(pre_db, *db),
                db.spec_groups_courses().len() == kept.len() + i,
                db.spec_groups_courses().subrange(0, kept.len() as int) == kept,
                forall|k: int|
                    0 <= k < i ==> (#[trigger] db.spec_groups_courses()[kept.len() + k]).group_id
                        == self.spec_group() && db.spec_groups_courses()[kept.len() + k].course_id@
                        == self.spec_staged()[k],
            decreases n - i,
        {
            let ghost before = db.spec_groups_courses();
            db.insert_group_course(self.group, self.staged[i].clone());
            proof {
                let post = db.spec_groups_courses();
                assert forall|j: int| 0 <= j < before.len() implies post[j] == before[j] by {
                    assert(post[j] == post.subrange(0, before.len() as int)[j]);
                };
                assert(post.subrange(0, kept.len() as int) =~= before.subrange(
                    0,
                    kept.len() as int,
                ));
                assert(post[kept.len() + i as int] == post.last());
                assert(self.spec_staged()[i as int] == self.staged@[i as int]@);
                assert(post[kept.len() + i as int].group_id == self.spec_group());
                assert(post[kept.len() + i as int].course_id@ == self.spec_staged()[i as int]);
                assert forall|k: int|
                    0 <= k < i implies (#[trigger] post[kept.len() + k]).group_id
                        == self.spec_group() && post[kept.len() + k].course_id@
                        == self.spec_staged()[k] by {
                    assert((#[trigger] before[kept.len() + k]).group_id == self.spec_group()
                        && before[kept.len() + k].course_id@ == self.spec_staged()[k]);
                    assert(post[kept.len() + k] == before[kept.len() + k]);
                };
            }
            i = i + 1;
        }
        Ok(())
    }
}

/// No association of the cleared group survives the clearing.
pub proof fn lemma_remove_group_clean(rows: Seq<GroupCourse>, group_id: i32)
    ensures
        forall|i: int|
            0 <= i < spec_remove_group(rows, group_id).len()
                ==> #[trigger] spec_remove_group(rows, group_id)[i].group_id != group_id,
    decreases rows.len(),
{
    if rows.len() > 0 {
        lemma_remove_group_clean(rows.drop_first(), group_id);
        let kept = spec_remove_group(rows, group_id);
        let rest = spec_remove_group(rows.drop_first(), group_id);
        assert forall|i: int| 0 <= i < kept.len() implies kept[i].group_id != group_id by {
            if rows[0].group_id != group_id {
                if i == 0 {
                    assert(kept[i] == rows[0]);
                } else {
                    assert(kept[i] == rest[i - 1]);
                }
            } else {
                assert(kept[i] == rest[i]);
            }
        };
    }
}

/// Clearing one group leaves every other group's associations exactly as
/// they were.
pub proof fn lemma_remove_group_frame(
    rows: Seq<GroupCourse>,
    group_id: i32,
    other: i32,
    course: Seq<char>,
)
    requires
        other != group_id,
    ensures
        spec_has_association(spec_remove_group(rows, group_id), other, course)
            == spec_has_association(rows, other, course),
    decreases rows.len(),
{
    if rows.len() > 0 {
        lemma_remove_group_frame(rows.drop_first(), group_id, other, course);
        let kept = spec_remove_group(rows, group_id);
        let rest = spec_remove_group(rows.drop_first(), group_id);
        let tail = rows.drop_first();
        if spec_has_association(kept, other, course) {
            let i = choose|i: int|
                0 <= i < kept.len() && kept[i].group_id == other && kept[i].course_id@ == course;
            if rows[0].group_id != group_id {
                if i == 0 {
                    assert(kept[i] == rows[0]);
                    assert(rows[0].group_id == other && rows[0].course_id@ == course);
                } else {
                    assert(kept[i] == rest[i - 1]);
                    assert(spec_has_association(rest, other, course));
                    let j = choose|j: int|
                        0 <= j < tail.len() && tail[j].group_id == other && tail[j].course_id@
                            == course;
                    assert(rows[j + 1].group_id == other && rows[j + 1].course_id@ == course);
                }
            } else {
                assert(kept[i] == rest[i]);
                assert(spec_has_association(rest, other, course));
                let j = choose|j: int|
                    0 <= j < tail.len() && tail[j].group_id == other && tail[j].course_id@
                        == course;
                assert(rows[j + 1].group_id == other && rows[j + 1].course_id@ == course);
            }
        }
        if spec_has_association(rows, other, course) {
            let i = choose|i: int|
                0 <= i < rows.len() && rows[i].group_id == other && rows[i].course_id@ == course;
            if i == 0 {
                assert(rows[0].group_id != group_id);
                assert(kept[0] == rows[0]);
                assert(spec_has_association(kept, other, course));
            } else {
                assert(tail[i - 1].group_id == other && tail[i - 1].course_id@ == course);
                assert(spec_has_association(tail, other, course));
                assert(spec_has_association(rest, other, course));
                let j = choose|j: int|
                    0 <= j < rest.len() && rest[j].group_id == other && rest[j].course_id@
                        == course;
                if rows[0].group_id != group_id {
                    assert(kept[j + 1] == rest[j]);
                    assert(spec_has_association(kept, other, course));
                } else {
                    assert(kept[j] == rest[j]);
                    assert(spec_has_association(kept, other, course));
                }
            }
        }
    }
}

/// Transactional atomicity, seen by a reader of the store: after a
/// successful import of `group` commits, the associations of `group` are
/// exactly the confirmed courses — no more, no fewer — and every other
/// group's associations are exactly what they were before. Together with
/// the failed case, where the store is untouched, no reader ever observes
/// a partial set.
pub proof fn lemma_import_atomicity(
    pre: Seq<GroupCourse>,
    post: Seq<GroupCourse>,
    group: i32,
    staged: Seq<Seq<char>>,
)
    requires
        post.len() == spec_remove_group(pre, group).len() + staged.len(),
        post.subrange(0, spec_remove_group(pre, group).len() as int) == spec_remove_group(
            pre,
            group,
        ),
        forall|i: int|
            0 <= i < staged.len() ==> post[spec_remove_group(pre, group).len() + i].group_id
                == group && post[spec_remove_group(pre, group).len() + i].course_id@ == staged[i],
    ensures
        forall|c: Seq<char>| #[trigger]
            spec_has_association(post, group, c) == staged.contains(c),
        forall|g2: i32, c: Seq<char>|
            g2 != group ==> #[trigger] spec_has_association(post, g2, c) == spec_has_association(
                pre,
                g2,
                c,
            ),
{
    let kept = spec_remove_group(pre, group);
    lemma_remove_group_clean(pre, group);
    assert forall|c: Seq<char>| #[trigger]
        spec_has_association(post, group, c) == staged.contains(c) by {
        if spec_has_association(post, group, c) {
            let i = choose|i: int|
                0 <= i < post.len() && post[i].group_id == group && post[i].course_id@ == c;
            if i < kept.len() {
                assert(post[i] == post.subrange(0, kept.len() as int)[i]);
                assert(post[i] == kept[i]);
                assert(false);
            } else {
                assert(post[kept.len() + (i - kept.len())].course_id@ == staged[i - kept.len()]);
                assert(staged.contains(c));
            }
        }
        if staged.contains(c) {
            let i = choose|i: int| 0 <= i < staged.len() && staged[i] == c;
            assert(post[kept.len() + i].group_id == group && post[kept.len() + i].course_id@
                == c);
            assert(spec_has_association(post, group, c));
        }
    };
    assert forall|g2: i32, c: Seq<char>|
        g2 != group implies #[trigger] spec_has_association(post, g2, c) == spec_has_association(
        pre,
        g2,
        c,
    ) by {
        lemma_remove_group_frame(pre, group, g2, c);
        if spec_has_association(post, g2, c) {
            let i = choose|i: int|
                0 <= i < post.len() && post[i].group_id == g2 && post[i].course_id@ == c;
            if i >= kept.len() {
                assert(post[kept.len() + (i - kept.len())].course_id@ == staged[i - kept.len()]);
                assert(post[kept.len() + (i - kept.len())].group_id == group);
                assert(false);
            }
            assert(post[i] == post.subrange(0, kept.len() as int)[i]);
            assert(kept[i].group_id == g2 && kept[i].course_id@ == c);
        }
        if spec_has_association(kept, g2, c) {
            let i = choose|i: int|
                0 <= i < kept.len() && kept[i].group_id == g2 && kept[i].course_id@ == c;
            assert(post[i] == post.subrange(0, kept.len() as int)[i]);
            assert(post[i] == kept[i]);
            assert(spec_has_association(post, g2, c));
        }
    };
}

} // verus!
