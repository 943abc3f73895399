//! Grouping posts under names, for category, tag and archive pages.

use vstd::prelude::*;
use vstd::string::*;
use crate::text::{same_text, texts};

verus! {

/// The members of one name: the positions, in the post list, of the posts
/// filed under it. A post filed twice under a name is listed twice.
pub struct Group {
    pub name: String,
    pub members: Vec<usize>,
}

impl Group {
    /// The name and the members, as mathematical values.
    pub open spec fn view(&self) -> (Seq<char>, Seq<int>) {
        (self.name@, self.members@.map_values(|i: usize| i as int))
    }
}

/// The names and members of a list of groups.
pub open spec fn groups_view(groups: Seq<Group>) -> Seq<(Seq<char>, Seq<int>)> {
    groups.map_values(|g: Group| g.view())
}

/// The groups after post `member` was filed under `name`: it joins the group
/// of that name where there is one, else it founds a new group at the end.
pub open spec fn file_under(
    groups: Seq<(Seq<char>, Seq<int>)>,
    name: Seq<char>,
    member: int,
) -> Seq<(Seq<char>, Seq<int>)>
    decreases groups.len(),
{
    if groups.len() == 0 {
        seq![(name, seq![member])]
    } else if groups[0].0 == name {
        seq![(name, groups[0].1.push(member))] + groups.skip(1)
    } else {
        seq![groups[0]] + file_under(groups.skip(1), name, member)
    }
}

/// The groups made of a list of filings, each a name and a post.
pub open spec fn grouped(filings: Seq<(Seq<char>, int)>) -> Seq<(Seq<char>, Seq<int>)>
    decreases filings.len(),
{
    if filings.len() == 0 {
        Seq::empty()
    } else {
        file_under(grouped(filings.drop_last()), filings.last().0, filings.last().1)
    }
}

/// Filing under a name that has no group yet founds one at the end.
pub proof fn lemma_file_new(groups: Seq<(Seq<char>, Seq<int>)>, name: Seq<char>, member: int)
    requires
        forall|k: int| 0 <= k < groups.len() ==> (#[trigger] groups[k]).0 != name,
    ensures
        file_under(groups, name, member) == groups.push((name, seq![member])),
    decreases groups.len(),
{
    if groups.len() > 0 {
        let rest = groups.skip(1);
        assert forall|k: int| 0 <= k < rest.len() implies (#[trigger] rest[k]).0 != name by {
            assert(rest[k] == groups[k + 1]);
        }
        lemma_file_new(rest, name, member);
        assert(seq![groups[0]] + rest.push((name, seq![member])) =~= groups.push(
            (name, seq![member]),
        ));
    } else {
        assert(seq![(name, seq![member])] =~= groups.push((name, seq![member])));
    }
}

/// Filing under the name whose group stands first at position `i` extends
/// that group and touches nothing else.
pub proof fn lemma_file_at(
    groups: Seq<(Seq<char>, Seq<int>)>,
    i: int,
    name: Seq<char>,
    member: int,
)
    requires
        0 <= i < groups.len(),
        groups[i].0 == name,
        forall|k: int| 0 <= k < i ==> (#[trigger] groups[k]).0 != name,
    ensures
        file_under(groups, name, member) == groups.update(i, (name, groups[i].1.push(member))),
    decreases i,
{
    let rest = groups.skip(1);
    if i == 0 {
        assert(seq![(name, groups[0].1.push(member))] + rest =~= groups.update(
            0,
            (name, groups[0].1.push(member)),
        ));
    } else {
        assert(groups[0].0 != name);
        assert(rest[i - 1] == groups[i]);
        assert forall|k: int| 0 <= k < i - 1 implies (#[trigger] rest[k]).0 != name by {
            assert(rest[k] == groups[k + 1]);
        }
        lemma_file_at(rest, i - 1, name, member);
        assert(seq![groups[0]] + rest.update(i - 1, (name, groups[i].1.push(member)))
            =~= groups.update(i, (name, groups[i].1.push(member))));
    }
}

/// Files post `member` under `name`.
pub fn file_member(groups: &mut Vec<Group>, name: &str, member: usize)
    ensures
        groups_view(final(groups)@) == file_under(groups_view(old(groups)@), name@, member as int),
{
    let ghost before = groups_view(groups@);
    let mut i: usize = 0;
    while i < groups.len()
        invariant
            i <= groups.len(),
            groups@ == old(groups)@,
            before == groups_view(old(groups)@),
            forall|k: int| 0 <= k < i ==> (#[trigger] groups@[k]).name@ != name@,
        decreases groups.len() - i,
    {
        if same_text(groups[i].name.as_str(), name) {
            let ghost old_members = groups@[i as int].members@;
            groups[i].members.push(member);
            proof {
                assert forall|k: int| 0 <= k < i implies (#[trigger] before[k]).0 != name@ by {
                    assert(before[k] == old(groups)@[k].view());
                }
                assert(before[i as int] == old(groups)@[i as int].view());
                lemma_file_at(before, i as int, name@, member as int);
                let target = before.update(
                    i as int,
                    (name@, before[i as int].1.push(member as int)),
                );
                assert(groups@[i as int].members@.map_values(|j: usize| j as int)
                    =~= old_members.map_values(|j: usize| j as int).push(member as int));
                assert forall|k: int| 0 <= k < groups@.len() implies groups_view(groups@)[k]
                    == target[k] by {
                    if k != i {
                        assert(groups@[k] == old(groups)@[k]);
                        assert(before[k] == old(groups)@[k].view());
                    }
                }
                assert(groups_view(groups@) =~= target);
            }
            return ;
        }
        i = i + 1;
    }
    let mut members: Vec<usize> = Vec::new();
    members.push(member);
    groups.push(Group { name: name.to_string(), members });
    proof {
        assert forall|k: int| 0 <= k < before.len() implies (#[trigger] before[k]).0 != name@ by {
            assert(before[k] == old(groups)@[k].view());
        }
        lemma_file_new(before, name@, member as int);
        assert(groups@.last().members@.map_values(|j: usize| j as int) =~= seq![member as int]);
        assert(groups_view(groups@) =~= before.push((name@, seq![member as int])));
    }
}

/// The filings of one post: each of its names with the position of the post.
pub open spec fn filings_of(names: Seq<Seq<char>>, member: int) -> Seq<(Seq<char>, int)> {
    names.map_values(|name: Seq<char>| (name, member))
}

/// The filings of the posts, post after post, each post listing `names[i]`.
pub open spec fn all_filings(names: Seq<Seq<Seq<char>>>) -> Seq<(Seq<char>, int)>
    decreases names.len(),
{
    if names.len() == 0 {
        Seq::empty()
    } else {
        all_filings(names.drop_last()) + filings_of(names.last(), names.len() - 1)
    }
}

/// Files post `member` under every name of `names`.
pub(crate) fn file_post(groups: &mut Vec<Group>, names: &Vec<String>, member: usize, Ghost(seen): Ghost<
    Seq<(Seq<char>, int)>,
>)
    requires
        groups_view(old(groups)@) == grouped(seen),
    ensures
        groups_view(final(groups)@) == grouped(seen + filings_of(texts(names@), member as int)),
{
    let ghost all = filings_of(texts(names@), member as int);
    let mut j: usize = 0;
    assert(seen + all.take(0) =~= seen);
    while j < names.len()
        invariant
            j <= names.len(),
            all == filings_of(texts(names@), member as int),
            groups_view(groups@) == grouped(seen + all.take(j as int)),
        decreases names.len() - j,
    {
        proof {
            let next = seen + all.take(j + 1);
            assert(next.drop_last() =~= seen + all.take(j as int));
            assert(next.last() == (names@[j as int]@, member as int));
        }
        file_member(groups, names[j].as_str(), member);
        j = j + 1;
    }
    assert(all.take(j as int) == all);
}

/// Whether every member of every group is a position below `bound`.
pub open spec fn members_below(groups: Seq<(Seq<char>, Seq<int>)>, bound: int) -> bool {
    forall|g: int, m: int|
        0 <= g < groups.len() && 0 <= m < groups[g].1.len() ==> 0 <= #[trigger] groups[g].1[m]
            < bound
}

/// Filing a position below the bound keeps all members below the bound.
pub proof fn lemma_file_below(
    groups: Seq<(Seq<char>, Seq<int>)>,
    name: Seq<char>,
    member: int,
    bound: int,
)
    requires
        members_below(groups, bound),
        0 <= member < bound,
    ensures
        members_below(file_under(groups, name, member), bound),
        groups.len() <= file_under(groups, name, member).len() <= groups.len() + 1,
    decreases groups.len(),
{
    let after = file_under(groups, name, member);
    if groups.len() == 0 {
    } else if groups[0].0 == name {
        let rest = groups.skip(1);
        assert forall|g: int, m: int|
            0 <= g < after.len() && 0 <= m < after[g].1.len() implies 0 <= #[trigger] after[g].1[m]
            < bound by {
            if g == 0 {
                if m < groups[0].1.len() {
                    assert(after[0].1[m] == groups[0].1[m]);
                }
            } else {
                assert(after[g] == groups[g]);
                assert(after[g].1[m] == groups[g].1[m]);
            }
        }
    } else {
        let rest = groups.skip(1);
        assert forall|g: int, m: int|
            0 <= g < rest.len() && 0 <= m < rest[g].1.len() implies 0 <= #[trigger] rest[g].1[m]
            < bound by {
            assert(rest[g] == groups[g + 1]);
            assert(rest[g].1[m] == groups[g + 1].1[m]);
        }
        lemma_file_below(rest, name, member, bound);
        let inner = file_under(rest, name, member);
        assert forall|g: int, m: int|
            0 <= g < after.len() && 0 <= m < after[g].1.len() implies 0 <= #[trigger] after[g].1[m]
            < bound by {
            if g == 0 {
                assert(after[0] == groups[0]);
                assert(after[0].1[m] == groups[0].1[m]);
            } else {
                assert(after[g] == inner[g - 1]);
                assert(after[g].1[m] == inner[g - 1].1[m]);
            }
        }
    }
}

/// Whether no group is empty.
pub open spec fn all_inhabited(groups: Seq<(Seq<char>, Seq<int>)>) -> bool {
    forall|g: int| 0 <= g < groups.len() ==> (#[trigger] groups[g]).1.len() > 0
}

proof fn lemma_file_inhabited(groups: Seq<(Seq<char>, Seq<int>)>, name: Seq<char>, member: int)
    requires
        all_inhabited(groups),
    ensures
        all_inhabited(file_under(groups, name, member)),
    decreases groups.len(),
{
    let after = file_under(groups, name, member);
    if groups.len() == 0 {
    } else if groups[0].0 == name {
        assert forall|g: int| 0 <= g < after.len() implies (#[trigger] after[g]).1.len() > 0 by {
            if g > 0 {
                assert(after[g] == groups[g]);
            }
        }
    } else {
        let rest = groups.skip(1);
        assert forall|g: int| 0 <= g < rest.len() implies (#[trigger] rest[g]).1.len() > 0 by {
            assert(rest[g] == groups[g + 1]);
        }
        lemma_file_inhabited(rest, name, member);
        let inner = file_under(rest, name, member);
        assert forall|g: int| 0 <= g < after.len() implies (#[trigger] after[g]).1.len() > 0 by {
            if g == 0 {
                assert(after[0] == groups[0]);
            } else {
                assert(after[g] == inner[g - 1]);
            }
        }
    }
}

/// Every group has a member.
pub proof fn lemma_groups_inhabited(filings: Seq<(Seq<char>, int)>)
    ensures
        all_inhabited(grouped(filings)),
    decreases filings.len(),
{
    if filings.len() > 0 {
        lemma_groups_inhabited(filings.drop_last());
        lemma_file_inhabited(grouped(filings.drop_last()), filings.last().0, filings.last().1);
    }
}

} // verus!
