use vstd::prelude::*;
use vstd::std_specs::hash::spec_hash_map_iter;
use vstd::std_specs::iter::IteratorSpec;

use crate::config::{Channel, ChannelView, Config, ConfigView};

verus! {

broadcast use vstd::std_specs::hash::group_hash_axioms;

/// What the supervisor must do to bring the running state to the
/// configuration, for the channel with the given id.
#[derive(Debug)]
pub enum Actions<'a> {
    /// Start the channel, which is new.
    Create(u64, &'a Channel),
    /// Replace the running channel by this one.
    Modify(u64, &'a Channel),
    /// Stop the channel, which is gone from the configuration.
    Delete(u64, &'a Channel),
}

pub enum ActionView {
    Create(u64, ChannelView),
    Modify(u64, ChannelView),
    Delete(u64, ChannelView),
}

impl ActionView {
    pub open spec fn id(self) -> u64 {
        match self {
            ActionView::Create(id, _) => id,
            ActionView::Modify(id, _) => id,
            ActionView::Delete(id, _) => id,
        }
    }
}

impl<'a> View for Actions<'a> {
    type V = ActionView;

    open spec fn view(&self) -> ActionView {
        match *self {
            Actions::Create(id, c) => ActionView::Create(id, c@),
            Actions::Modify(id, c) => ActionView::Modify(id, c@),
            Actions::Delete(id, c) => ActionView::Delete(id, c@),
        }
    }
}

pub open spec fn actions_view<'a>(v: Seq<Actions<'a>>) -> Seq<ActionView> {
    v.map_values(|x: Actions<'a>| x@)
}

pub open spec fn action_ids(acts: Seq<ActionView>) -> Seq<u64> {
    acts.map_values(|x: ActionView| x.id())
}

/// The channel with this id is added, removed or changed from `old` to `new`.
pub open spec fn differs_at(old: Map<u64, ChannelView>, new: Map<u64, ChannelView>, id: u64) -> bool {
    ||| old.contains_key(id) != new.contains_key(id)
    ||| old.contains_key(id) && new.contains_key(id) && old[id] != new[id]
}

/// The action is one that takes `old` towards `new`.
pub open spec fn action_fits(
    old: Map<u64, ChannelView>,
    new: Map<u64, ChannelView>,
    a: ActionView,
) -> bool {
    match a {
        ActionView::Delete(id, c) => old.contains_key(id) && !new.contains_key(id) && c == old[id],
        ActionView::Modify(id, c) => old.contains_key(id) && new.contains_key(id) && old[id]
            != new[id] && c == new[id],
        ActionView::Create(id, c) => !old.contains_key(id) && new.contains_key(id) && c == new[id],
    }
}

/// `acts` is a diff from `old` to `new`: one fitting action for each id at
/// which the two differ and for no other, with every creation after every
/// deletion and modification.
pub open spec fn is_diff(old: ConfigView, new: ConfigView, acts: Seq<ActionView>) -> bool {
    &&& forall|i: int| 0 <= i < acts.len() ==> action_fits(old.channels, new.channels, #[trigger] acts[i])
    &&& action_ids(acts).no_duplicates()
    &&& forall|id: u64| differs_at(old.channels, new.channels, id) ==> action_ids(acts).contains(id)
    &&& forall|i: int, j: int|
        0 <= i < j < acts.len() && #[trigger] acts[i] is Create ==> #[trigger] acts[j] is Create
}

pub open spec fn apply_action(m: Map<u64, ChannelView>, a: ActionView) -> Map<u64, ChannelView> {
    match a {
        ActionView::Delete(id, _) => m.remove(id),
        ActionView::Modify(id, c) => m.insert(id, c),
        ActionView::Create(id, c) => m.insert(id, c),
    }
}

/// The channels after performing the actions in order: a deletion removes
/// the id, a modification replaces its channel, a creation adds it.
pub open spec fn apply_actions(m: Map<u64, ChannelView>, acts: Seq<ActionView>) -> Map<
    u64,
    ChannelView,
>
    decreases acts.len(),
{
    if acts.len() == 0 {
        m
    } else {
        apply_action(apply_actions(m, acts.drop_last()), acts.last())
    }
}

proof fn lemma_apply_fitting(
    old: Map<u64, ChannelView>,
    new: Map<u64, ChannelView>,
    acts: Seq<ActionView>,
)
    requires
        forall|i: int| 0 <= i < acts.len() ==> action_fits(old, new, #[trigger] acts[i]),
        action_ids(acts).no_duplicates(),
    ensures
        forall|k: u64|
            #![trigger apply_actions(old, acts).contains_key(k)]
            action_ids(acts).contains(k) ==> (apply_actions(old, acts).contains_key(k)
                == new.contains_key(k) && (new.contains_key(k) ==> apply_actions(old, acts)[k]
                == new[k])),
        forall|k: u64|
            #![trigger apply_actions(old, acts).contains_key(k)]
            !action_ids(acts).contains(k) ==> (apply_actions(old, acts).contains_key(k)
                == old.contains_key(k) && (old.contains_key(k) ==> apply_actions(old, acts)[k]
                == old[k])),
    decreases acts.len(),
{
    if acts.len() > 0 {
        let pre = acts.drop_last();
        let last = acts.last();
        let ids = action_ids(acts);
        assert(action_ids(pre) =~= ids.drop_last());
        assert forall|i: int| 0 <= i < pre.len() implies action_fits(old, new, #[trigger] pre[i]) by {
            assert(pre[i] == acts[i]);
        }
        lemma_apply_fitting(old, new, pre);
        assert(action_fits(old, new, acts[acts.len() - 1]));
        assert(ids[acts.len() - 1] == last.id());
        let r = apply_actions(old, acts);
        let rp = apply_actions(old, pre);
        assert(r == apply_action(rp, last));
        assert forall|k: u64| #![trigger r.contains_key(k)] k != last.id() implies (ids.contains(k)
            == action_ids(pre).contains(k) && r.contains_key(k) == rp.contains_key(k) && (
        r.contains_key(k) ==> r[k] == rp[k])) by {
            if ids.contains(k) {
                let i = choose|i: int| 0 <= i < ids.len() && ids[i] == k;
                assert(action_ids(pre)[i] == k);
            }
            if action_ids(pre).contains(k) {
                let i = choose|i: int| 0 <= i < action_ids(pre).len() && action_ids(pre)[i] == k;
                assert(ids[i] == k);
            }
        }
        assert forall|k: u64| #![trigger r.contains_key(k)] ids.contains(k) implies (r.contains_key(k)
            == new.contains_key(k) && (new.contains_key(k) ==> r[k] == new[k])) by {
            if k != last.id() {
                let i = choose|i: int| 0 <= i < ids.len() && ids[i] == k;
                assert(action_ids(pre)[i] == k);
                assert(rp.contains_key(k) == new.contains_key(k));
            }
        }
        assert forall|k: u64| #![trigger r.contains_key(k)] !ids.contains(k) implies (r.contains_key(k)
            == old.contains_key(k) && (old.contains_key(k) ==> r[k] == old[k])) by {
            assert(k != last.id());
            assert(rp.contains_key(k) == old.contains_key(k));
        }
    }
}

/// Applying the diff from `old` to `new` to the channels of `old` gives
/// exactly the channels of `new`.
pub proof fn lemma_diff_sound(old: ConfigView, new: ConfigView, acts: Seq<ActionView>)
    requires
        is_diff(old, new, acts),
    ensures
        apply_actions(old.channels, acts) == new.channels,
{
    lemma_apply_fitting(old.channels, new.channels, acts);
    let r = apply_actions(old.channels, acts);
    assert forall|k: u64| #[trigger] r.contains_key(k) == new.channels.contains_key(k) by {
        if !action_ids(acts).contains(k) {
            assert(!differs_at(old.channels, new.channels, k));
        }
    }
    assert forall|k: u64| r.contains_key(k) implies #[trigger] r[k] == new.channels[k] by {
        if !action_ids(acts).contains(k) {
            assert(!differs_at(old.channels, new.channels, k));
        }
    }
    assert(r =~= new.channels);
}

/// The diff from a configuration to itself holds no action.
pub proof fn lemma_diff_of_self_empty(c: ConfigView, acts: Seq<ActionView>)
    requires
        is_diff(c, c, acts),
    ensures
        acts.len() == 0,
{
    if acts.len() > 0 {
        assert(action_fits(c.channels, c.channels, acts[0]));
    }
}

proof fn lemma_push_keeps_ids(before: Seq<ActionView>, a: ActionView)
    ensures
        action_ids(before.push(a)) =~= action_ids(before).push(a.id()),
        forall|x: u64| #[trigger] action_ids(before.push(a)).contains(x) <==> (action_ids(before).contains(x) || x == a.id()),
{
    let ids = action_ids(before.push(a));
    assert(ids =~= action_ids(before).push(a.id()));
    assert forall|x: u64| #[trigger] ids.contains(x) <==> (action_ids(before).contains(x) || x == a.id()) by {
        if action_ids(before).contains(x) {
            let i = choose|i: int| 0 <= i < action_ids(before).len() && action_ids(before)[i] == x;
            assert(ids[i] == x);
        }
        if x == a.id() {
            assert(ids[ids.len() - 1] == x);
        }
        if ids.contains(x) {
            let i = choose|i: int| 0 <= i < ids.len() && ids[i] == x;
            if i < before.len() {
                assert(action_ids(before)[i] == x);
            }
        }
    }
}

/// Two entries of a walk over a map never share a key.
proof fn lemma_walk_keys_distinct<'a>(
    m: Map<u64, Channel>,
    s: Seq<(&'a u64, &'a Channel)>,
    i: int,
    j: int,
)
    requires
        s.no_duplicates(),
        forall|n: int| 0 <= n < s.len() ==> m.contains_key(*s[n].0) && m[*s[n].0] == *s[n].1,
        0 <= i < s.len(),
        0 <= j < s.len(),
        i != j,
    ensures
        *s[i].0 != *s[j].0,
{
    if *s[i].0 == *s[j].0 {
        assert(s[i] == s[j]);
    }
}

/// The deletions and modifications found by walking the running channels in
/// the order of `walk`.
pub open spec fn walk_changes<'a>(walk: Seq<(&'a u64, &'a Channel)>, new: Map<u64, ChannelView>) -> Seq<
    ActionView,
>
    decreases walk.len(),
{
    if walk.len() == 0 {
        Seq::empty()
    } else {
        let rest = walk_changes(walk.drop_last(), new);
        let id = *walk.last().0;
        let c = *walk.last().1;
        if !new.contains_key(id) {
            rest.push(ActionView::Delete(id, c@))
        } else if new[id] != c@ {
            rest.push(ActionView::Modify(id, new[id]))
        } else {
            rest
        }
    }
}

/// The creations found by walking the configured channels in the order of
/// `walk`.
pub open spec fn walk_creations<'a>(walk: Seq<(&'a u64, &'a Channel)>, old: Map<u64, ChannelView>) -> Seq<
    ActionView,
>
    decreases walk.len(),
{
    if walk.len() == 0 {
        Seq::empty()
    } else {
        let rest = walk_creations(walk.drop_last(), old);
        let id = *walk.last().0;
        let c = *walk.last().1;
        if !old.contains_key(id) {
            rest.push(ActionView::Create(id, c@))
        } else {
            rest
        }
    }
}

impl Config {
    /// The actions that take the running state `self` to the configuration
    /// `config`: deletions and modifications, by walking `self`, then
    /// creations, by walking `config`.
    pub fn diff<'a>(&'a self, config: &'a Config) -> (actions: Vec<Actions<'a>>)
        ensures
            is_diff(self@, config@, actions_view(actions@)),
            actions_view(actions@) == walk_changes(
                spec_hash_map_iter(&self.channels).remaining(),
                config@.channels,
            ) + walk_creations(spec_hash_map_iter(&config.channels).remaining(), self@.channels),
    {
        let mut actions: Vec<Actions<'a>> = Vec::new();
        let ghost old = self@.channels;
        let ghost new = config@.channels;
        let ghost mut seen: Seq<u64> = Seq::empty();
        for (id, channel) in it: self.channels.iter()
            invariant
                old == self@.channels,
                new == config@.channels,
                it.seq() == spec_hash_map_iter(&self.channels).remaining(),
                it.seq().no_duplicates(),
                seen.len() == it.index(),
                actions_view(actions@) == walk_changes(it.seq().take(it.index()), new),
                forall|j: int| 0 <= j < it.index() ==> seen[j] == #[trigger] *it.seq()[j].0,
                forall|i: int|
                    0 <= i < actions@.len() ==> action_fits(
                        old,
                        new,
                        #[trigger] actions_view(actions@)[i],
                    ) && actions_view(actions@)[i] !is Create,
                action_ids(actions_view(actions@)).no_duplicates(),
                forall|i: int|
                    0 <= i < actions@.len() ==> seen.contains(
                        #[trigger] action_ids(actions_view(actions@))[i],
                    ),
                forall|j: int|
                    0 <= j < it.index() && differs_at(old, new, #[trigger] *it.seq()[j].0)
                        ==> action_ids(actions_view(actions@)).contains(*it.seq()[j].0),
        {
            let ghost k = *id;
            let ghost before = actions_view(actions@);
            proof {
                assert(old.contains_key(k) && old[k] == channel@);
                assert(k == *it.seq()[it.index()].0);
                assert forall|j: int| 0 <= j < seen.len() implies seen[j] != k by {
                    lemma_walk_keys_distinct(self.channels@, it.seq(), j, it.index());
                }
            }
            match config.channels.get(id) {
                Some(other) => {
                    if !(*channel == *other) {
                        actions.push(Actions::Modify(*id, other));
                    }
                },
                None => {
                    actions.push(Actions::Delete(*id, channel));
                },
            }
            proof {
                let after = actions_view(actions@);
                let idx = it.index();
                assert(it.seq().take(idx + 1).drop_last() =~= it.seq().take(idx));
                assert(it.seq().take(idx + 1).last() == it.seq()[idx]);
                assert((*it.seq()[idx].1)@ == old[k]);
                if after.len() > before.len() {
                    assert(after =~= before.push(after.last()));
                    lemma_push_keeps_ids(before, after.last());
                    assert(!action_ids(before).contains(k));
                } else {
                    assert(after =~= before);
                    assert(!differs_at(old, new, k));
                }
                let seen0 = seen;
                seen = seen.push(k);
                assert forall|i: int| 0 <= i < after.len() implies seen.contains(
                    #[trigger] action_ids(after)[i],
                ) by {
                    if i < before.len() {
                        assert(action_ids(after)[i] == action_ids(before)[i]);
                        let jj = choose|jj: int| 0 <= jj < seen0.len() && seen0[jj] == action_ids(before)[i];
                        assert(seen[jj] == seen0[jj]);
                    } else {
                        assert(seen[seen.len() - 1] == k);
                    }
                }
                assert forall|j: int|
                    0 <= j < it.index() + 1 && differs_at(old, new, #[trigger] *it.seq()[j].0)
                    implies action_ids(after).contains(*it.seq()[j].0) by {
                    if j < it.index() {
                        assert(action_ids(before).contains(*it.seq()[j].0));
                    }
                }
            }
        }
        proof {
            let s1 = spec_hash_map_iter(&self.channels).remaining();
            assert forall|id: u64| old.contains_key(id) && differs_at(old, new, id) implies action_ids(
                actions_view(actions@),
            ).contains(id) by {
                assert(s1.contains((&id, &self.channels@[id])));
                let j = choose|j: int| 0 <= j < s1.len() && s1[j] == (&id, &self.channels@[id]);
                assert(*s1[j].0 == id);
            }
        }
        let ghost mid = actions@.len();
        let ghost changes = actions_view(actions@);
        proof {
            let s1 = spec_hash_map_iter(&self.channels).remaining();
            assert(s1.take(s1.len() as int) =~= s1);
            assert(Seq::<(&u64, &Channel)>::empty() =~= spec_hash_map_iter(&config.channels).remaining().take(0));
            assert(changes + Seq::<ActionView>::empty() =~= changes);
        }
        let ghost mut seen2: Seq<u64> = Seq::empty();
        for (id, channel) in it: config.channels.iter()
            invariant
                old == self@.channels,
                new == config@.channels,
                it.seq() == spec_hash_map_iter(&config.channels).remaining(),
                it.seq().no_duplicates(),
                mid <= actions@.len(),
                forall|i: int|
                    0 <= i < actions@.len() ==> action_fits(
                        old,
                        new,
                        #[trigger] actions_view(actions@)[i],
                    ),
                forall|i: int|
                    0 <= i < actions@.len() ==> (#[trigger] actions_view(actions@)[i] is Create <==> i >= mid),
                action_ids(actions_view(actions@)).no_duplicates(),
                seen2.len() == it.index(),
                changes == walk_changes(spec_hash_map_iter(&self.channels).remaining(), new),
                actions_view(actions@) == changes + walk_creations(it.seq().take(it.index()), old),
                forall|j: int| 0 <= j < it.index() ==> seen2[j] == #[trigger] *it.seq()[j].0,
                forall|i: int|
                    mid <= i < actions@.len() ==> seen2.contains(
                        #[trigger] action_ids(actions_view(actions@))[i],
                    ),
                forall|id: u64|
                    old.contains_key(id) && differs_at(old, new, id) ==> action_ids(
                        actions_view(actions@),
                    ).contains(id),
                forall|j: int|
                    0 <= j < it.index() && differs_at(old, new, #[trigger] *it.seq()[j].0)
                        ==> action_ids(actions_view(actions@)).contains(*it.seq()[j].0),
        {
            let ghost k = *id;
            let ghost before = actions_view(actions@);
            proof {
                assert(new.contains_key(k) && new[k] == channel@);
                assert(k == *it.seq()[it.index()].0);
                let idx = it.index();
                assert(it.seq().take(idx + 1).drop_last() =~= it.seq().take(idx));
                assert(it.seq().take(idx + 1).last() == it.seq()[idx]);
                assert((*it.seq()[idx].1)@ == new[k]);
            }
            if !self.channels.contains_key(id) {
                actions.push(Actions::Create(*id, channel));
                proof {
                    let after = actions_view(actions@);
                    assert(after =~= before.push(after.last()));
                    lemma_push_keeps_ids(before, after.last());
                    assert forall|i: int| 0 <= i < before.len() implies action_ids(before)[i] != k by {
                        if i >= mid {
                            let j = choose|j: int|
                                0 <= j < seen2.len() && seen2[j] == action_ids(before)[i];
                            lemma_walk_keys_distinct(config.channels@, it.seq(), j, it.index());
                        } else {
                            assert(action_fits(old, new, before[i]));
                        }
                    }
                }
            }
            proof {
                let after = actions_view(actions@);
                let seen0 = seen2;
                seen2 = seen2.push(k);
                assert forall|i: int| mid <= i < after.len() implies seen2.contains(
                    #[trigger] action_ids(after)[i],
                ) by {
                    if i < before.len() {
                        assert(action_ids(after)[i] == action_ids(before)[i]);
                        let jj = choose|jj: int| 0 <= jj < seen0.len() && seen0[jj] == action_ids(before)[i];
                        assert(seen2[jj] == seen0[jj]);
                    } else {
                        assert(seen2[seen2.len() - 1] == k);
                    }
                }
                assert forall|j: int|
                    0 <= j < it.index() + 1 && differs_at(old, new, #[trigger] *it.seq()[j].0)
                    implies action_ids(after).contains(*it.seq()[j].0) by {
                    if j < it.index() {
                        assert(action_ids(before).contains(*it.seq()[j].0));
                    }
                }
            }
        }
        proof {
            let s2 = spec_hash_map_iter(&config.channels).remaining();
            assert(s2.take(s2.len() as int) =~= s2);
            let acts = actions_view(actions@);
            assert forall|id: u64| differs_at(old, new, id) implies action_ids(acts).contains(id) by {
                if !old.contains_key(id) {
                    let s = spec_hash_map_iter(&config.channels).remaining();
                    assert(s.contains((&id, &config.channels@[id])));
                    let j = choose|j: int| 0 <= j < s.len() && s[j] == (&id, &config.channels@[id]);
                    assert(*s[j].0 == id);
                }
            }
        }
        actions
    }
}

/// The actions of one reconciliation pass: none where the running state
/// already is the configuration, else the diff from the one to the other.
pub fn reconcile<'a>(state: &'a Config, config: &'a Config) -> (actions: Vec<Actions<'a>>)
    ensures
        state@ == config@ ==> actions@.len() == 0,
        is_diff(state@, config@, actions_view(actions@)),
{
    if *state == *config {
        let actions: Vec<Actions<'a>> = Vec::new();
        proof {
            assert(actions_view(actions@) =~= Seq::<ActionView>::empty());
            assert(action_ids(actions_view(actions@)) =~= Seq::<u64>::empty());
        }
        actions
    } else {
        state.diff(config)
    }
}

} // verus!
