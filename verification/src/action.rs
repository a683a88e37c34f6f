//! Orders for units, and the queue that batches them until they are sent.
//!
//! Sending an order costs the same whether it addresses one unit or many, so
//! units that are given the same order in one step share one action.
use vstd::prelude::*;
use crate::geometry::Point2;
use crate::ids::AbilityId;

verus! {

/// Point in the game's space.
#[derive(Debug, Clone, Copy, PartialEq, Eq, Structural, Hash)]
pub struct Point3 {
    /// Distance from the left edge, in 4096ths.
    pub x: i32,
    /// Distance from the bottom edge, in 4096ths.
    pub y: i32,
    /// Height, in 4096ths.
    pub z: i32,
}

/// Target of an order.
#[derive(Debug, Clone, Copy, PartialEq, Eq, Structural, Hash)]
pub enum Target {
    /// The order needs no target.
    Nowhere,
    /// A point on the map.
    Pos(Point2),
    /// The unit with this tag.
    Tag(u64),
}

/// What tells one order from another: units that share all three share an
/// action.
#[derive(Debug, Clone, Copy, PartialEq, Eq, Structural, Hash)]
pub struct CommandKey {
    /// Ability to use.
    pub ability: AbilityId,
    /// Target of the ability.
    pub target: Target,
    /// Whether the order waits for the unit's earlier orders.
    pub queue: bool,
}

/// Action that the bot sends to the game.
#[derive(Debug, Clone)]
pub enum Action {
    /// Orders the units with the given tags to use an ability on a target;
    /// the flag tells whether the order waits for earlier ones.
    UnitCommand(AbilityId, Target, Vec<u64>, bool),
    /// Moves the camera.
    CameraMove(Point3),
    /// Sends a chat message; the flag tells whether only allies read it.
    Chat(String, bool),
    /// Switches autocast of an ability for the units with the given tags.
    ToggleAutocast(AbilityId, Vec<u64>),
}

/// What an action says, with sequences in place of vectors.
pub enum ActionView {
    /// See [`Action::UnitCommand`].
    UnitCommand(AbilityId, Target, Seq<u64>, bool),
    /// See [`Action::CameraMove`].
    CameraMove(Point3),
    /// See [`Action::Chat`].
    Chat(Seq<char>, bool),
    /// See [`Action::ToggleAutocast`].
    ToggleAutocast(AbilityId, Seq<u64>),
}

impl View for Action {
    type V = ActionView;

    open spec fn view(&self) -> ActionView {
        match *self {
            Action::UnitCommand(a, t, tags, q) => ActionView::UnitCommand(a, t, tags@, q),
            Action::CameraMove(p) => ActionView::CameraMove(p),
            Action::Chat(s, allies) => ActionView::Chat(s@, allies),
            Action::ToggleAutocast(a, tags) => ActionView::ToggleAutocast(a, tags@),
        }
    }
}

/// Orders waiting to be sent: for each distinct order the tags of the units
/// that were given it, in the order in which they were given it.
pub type Pending = Seq<(CommandKey, Seq<u64>)>;

/// Whether a list of waiting orders is one that the queue can hold: no order
/// stands twice, no order is without units, and no unit stands twice under
/// one order.
pub open spec fn pending_wf(s: Pending) -> bool {
    &&& forall|i: int, j: int| 0 <= i < j < s.len() ==> (#[trigger] s[i]).0 != (#[trigger] s[j]).0
    &&& forall|i: int| 0 <= i < s.len() ==> (#[trigger] s[i]).1.len() > 0
    &&& forall|i: int| 0 <= i < s.len() ==> (#[trigger] s[i]).1.no_duplicates()
}

/// Whether the order `key` stands at place `i` of the list.
pub open spec fn key_at(s: Pending, key: CommandKey, i: int) -> bool {
    0 <= i < s.len() && s[i].0 == key
}

/// Tags of the units that wait under the order `key`; empty where the order
/// was given to none.
pub open spec fn tags_of(s: Pending, key: CommandKey) -> Seq<u64> {
    if exists|i: int| key_at(s, key, i) {
        s[choose|i: int| key_at(s, key, i)].1
    } else {
        Seq::empty()
    }
}

/// The list after the unit `tag` was given the order `key`: a unit that
/// already waits under the order is not added again.
pub open spec fn with_tag(s: Pending, key: CommandKey, tag: u64) -> Pending {
    if exists|i: int| key_at(s, key, i) {
        let i = choose|i: int| key_at(s, key, i);
        if s[i].1.contains(tag) {
            s
        } else {
            s.update(i, (key, s[i].1.push(tag)))
        }
    } else {
        s.push((key, seq![tag]))
    }
}

/// Giving a unit an order keeps the list one that the queue can hold, adds
/// the unit to that order's units, and leaves every other order as it was.
pub proof fn lemma_with_tag(s: Pending, key: CommandKey, tag: u64)
    requires
        pending_wf(s),
    ensures
        pending_wf(with_tag(s, key, tag)),
        tags_of(with_tag(s, key, tag), key) == if tags_of(s, key).contains(tag) {
            tags_of(s, key)
        } else {
            tags_of(s, key).push(tag)
        },
        forall|other: CommandKey|
            other != key ==> tags_of(with_tag(s, key, tag), other) == tags_of(s, other),
{
    let r = with_tag(s, key, tag);
    if exists|i: int| key_at(s, key, i) {
        let i = choose|i: int| key_at(s, key, i);
        if s[i].1.contains(tag) {
        } else {
            let grown = s[i].1.push(tag);
            assert(grown.no_duplicates()) by {
                assert forall|a: int, b: int| 0 <= a < grown.len() && 0 <= b < grown.len() && a
                    != b implies grown[a] != grown[b] by {
                    if a < s[i].1.len() && b < s[i].1.len() {
                    } else if a < s[i].1.len() {
                        assert(s[i].1.contains(s[i].1[a]));
                    } else {
                        assert(s[i].1.contains(s[i].1[b]));
                    }
                }
            }
            assert forall|a: int, b: int| 0 <= a < b < r.len() implies (#[trigger] r[a]).0 != (
            #[trigger] r[b]).0 by {
                assert(s[a].0 != s[b].0);
            }
            assert(key_at(r, key, i));
            let c = choose|c: int| key_at(r, key, c);
            if c != i {
                assert(s[c].0 == key);
                if c < i {
                    assert(s[c].0 != s[i].0);
                } else {
                    assert(s[i].0 != s[c].0);
                }
            }
        }
        assert forall|other: CommandKey| other != key implies tags_of(r, other) == tags_of(
            s,
            other,
        ) by {
            if exists|j: int| key_at(s, other, j) {
                let j = choose|j: int| key_at(s, other, j);
                assert(key_at(r, other, j));
                let c = choose|c: int| key_at(r, other, c);
                assert(key_at(s, other, c));
                if c != j {
                    if c < j {
                        assert(s[c].0 != s[j].0);
                    } else {
                        assert(s[j].0 != s[c].0);
                    }
                }
            } else {
                if exists|j: int| key_at(r, other, j) {
                    let j = choose|j: int| key_at(r, other, j);
                    assert(key_at(s, other, j));
                }
            }
        }
    } else {
        let n = s.len() as int;
        assert forall|a: int, b: int| 0 <= a < b < r.len() implies (#[trigger] r[a]).0 != (
        #[trigger] r[b]).0 by {
            if b == n {
                assert(!key_at(s, key, a));
            } else {
                assert(s[a].0 != s[b].0);
            }
        }
        assert(seq![tag].no_duplicates());
        assert(key_at(r, key, n));
        let c = choose|c: int| key_at(r, key, c);
        if c != n {
            assert(key_at(s, key, c));
        }
        assert(tags_of(s, key) =~= Seq::<u64>::empty());
        assert(tags_of(r, key) =~= Seq::<u64>::empty().push(tag));
        assert forall|other: CommandKey| other != key implies tags_of(r, other) == tags_of(
            s,
            other,
        ) by {
            if exists|j: int| key_at(s, other, j) {
                let j = choose|j: int| key_at(s, other, j);
                assert(key_at(r, other, j));
                let c = choose|c: int| key_at(r, other, c);
                assert(key_at(s, other, c));
                if c != j {
                    if c < j {
                        assert(s[c].0 != s[j].0);
                    } else {
                        assert(s[j].0 != s[c].0);
                    }
                }
            } else {
                if exists|j: int| key_at(r, other, j) {
                    let j = choose|j: int| key_at(r, other, j);
                    assert(key_at(s, other, j));
                }
            }
        }
    }
}

/// Giving a unit the same order twice is giving it once: the second call
/// changes nothing, and the unit stands exactly once under that order.
pub proof fn lemma_command_idempotent(s: Pending, key: CommandKey, tag: u64)
    requires
        pending_wf(s),
    ensures
        with_tag(with_tag(s, key, tag), key, tag) == with_tag(s, key, tag),
        tags_of(with_tag(s, key, tag), key).filter(|t: u64| t == tag).len() == 1,
{
    let once = with_tag(s, key, tag);
    lemma_with_tag(s, key, tag);
    let tags = tags_of(once, key);
    assert(tags.contains(tag)) by {
        if tags_of(s, key).contains(tag) {
        } else {
            assert(tags[tags.len() - 1] == tag);
        }
    }
    assert(exists|i: int| key_at(once, key, i)) by {
        if !exists|i: int| key_at(once, key, i) {
            assert(tags =~= Seq::<u64>::empty());
        }
    }
    lemma_count_one(tags, tag);
}

/// A value that stands in a sequence without repetitions stands there once.
pub proof fn lemma_count_one(s: Seq<u64>, v: u64)
    requires
        s.no_duplicates(),
        s.contains(v),
    ensures
        s.filter(|t: u64| t == v).len() == 1,
    decreases s.len(),
{
    let f = |t: u64| t == v;
    reveal(Seq::filter);
    if s.len() > 0 {
        let head = s.drop_last();
        assert(head.no_duplicates());
        if s.last() == v {
            assert(!head.contains(v)) by {
                if head.contains(v) {
                    let i = choose|i: int| 0 <= i < head.len() && head[i] == v;
                    assert(s[i] == s[s.len() - 1]);
                }
            }
            lemma_count_zero(head, v);
        } else {
            assert(head.contains(v)) by {
                let i = choose|i: int| 0 <= i < s.len() && s[i] == v;
                assert(head[i] == v);
            }
            lemma_count_one(head, v);
        }
    }
}

/// A value that does not stand in a sequence is counted there no times.
pub proof fn lemma_count_zero(s: Seq<u64>, v: u64)
    requires
        !s.contains(v),
    ensures
        s.filter(|t: u64| t == v).len() == 0,
    decreases s.len(),
{
    reveal(Seq::filter);
    if s.len() > 0 {
        let head = s.drop_last();
        assert(s.last() != v) by {
            assert(s[s.len() - 1] == s.last());
        }
        assert(!head.contains(v)) by {
            if head.contains(v) {
                let i = choose|i: int| 0 <= i < head.len() && head[i] == v;
                assert(s[i] == v);
            }
        }
        lemma_count_zero(head, v);
    }
}

/// One order with the units that wait under it.
struct Bucket {
    key: CommandKey,
    tags: Vec<u64>,
}

/// Orders with their units, in the order in which the orders were first given.
struct Buckets {
    items: Vec<Bucket>,
}

impl Buckets {
    spec fn view(&self) -> Pending {
        self.items@.map_values(|b: Bucket| (b.key, b.tags@))
    }

    fn new() -> (r: Buckets)
        ensures
            r@ == Pending::empty(),
    {
        let r = Buckets { items: Vec::new() };
        assert(r@ =~= Pending::empty());
        r
    }

    fn is_empty(&self) -> (r: bool)
        ensures
            r == (self@.len() == 0),
    {
        self.items.len() == 0
    }

    fn add(&mut self, key: CommandKey, tag: u64)
        requires
            pending_wf(old(self)@),
        ensures
            final(self)@ == with_tag(old(self)@, key, tag),
    {
        let ghost before = self@;
        let mut i: usize = 0;
        while i < self.items.len()
            invariant
                i <= self.items.len(),
                self@ == before,
                before == old(self)@,
                pending_wf(before),
                forall|j: int| 0 <= j < i ==> !key_at(before, key, j),
            decreases self.items.len() - i,
        {
            if self.items[i].key == key {
                proof {
                    assert(key_at(before, key, i as int));
                    let c = choose|c: int| key_at(before, key, c);
                    if c != i {
                        if c < i {
                            assert(before[c].0 != before[i as int].0);
                        } else {
                            assert(before[i as int].0 != before[c].0);
                        }
                    }
                }
                let mut k: usize = 0;
                let mut found = false;
                while k < self.items[i].tags.len()
                    invariant
                        i < self.items.len(),
                        k <= self.items[i as int].tags.len(),
                        self@ == before,
                        found == exists|j: int| 0 <= j < k && self.items[i as int].tags@[j] == tag,
                    decreases self.items[i as int].tags.len() - k,
                {
                    if self.items[i].tags[k] == tag {
                        found = true;
                    }
                    k += 1;
                }
                proof {
                    let tags = before[i as int].1;
                    assert(tags == self.items[i as int].tags@);
                    if found {
                        let j = choose|j: int| 0 <= j < tags.len() && tags[j] == tag;
                        assert(tags.contains(tag));
                    }
                }
                if !found {
                    let mut bucket = self.items.remove(i);
                    bucket.tags.push(tag);
                    self.items.insert(i, bucket);
                    assert(self@ =~= before.update(i as int, (key, before[i as int].1.push(tag))));
                }
                return ;
            }
            i += 1;
        }
        let mut tags: Vec<u64> = Vec::new();
        tags.push(tag);
        self.items.push(Bucket { key, tags });
        assert(self@ =~= before.push((key, seq![tag])));
    }
}

/// Queue of the orders given in one step.
pub struct Commander {
    commands: Buckets,
    autocast: Buckets,
}

/// The order under which a switch of autocast waits in the queue.
pub open spec fn autocast_key(ability: AbilityId) -> CommandKey {
    CommandKey { ability, target: Target::Nowhere, queue: false }
}

impl Commander {
    /// Orders to use an ability that wait in the queue.
    pub closed spec fn commands(&self) -> Pending {
        self.commands@
    }

    /// Switches of autocast that wait in the queue, each under the order that
    /// [`autocast_key`] gives for its ability.
    pub closed spec fn autocast(&self) -> Pending {
        self.autocast@
    }

    /// Whether the queue is one that its methods keep.
    pub open spec fn wf(&self) -> bool {
        &&& pending_wf(self.commands())
        &&& pending_wf(self.autocast())
        &&& forall|i: int|
            0 <= i < self.autocast().len() ==> (#[trigger] self.autocast()[i]).0 == autocast_key(
                self.autocast()[i].0.ability,
            )
    }

    /// Empty queue.
    pub fn new() -> (r: Commander)
        ensures
            r.wf(),
            r.commands() == Pending::empty(),
            r.autocast() == Pending::empty(),
    {
        Commander { commands: Buckets::new(), autocast: Buckets::new() }
    }

    /// Checks if no order waits in the queue.
    pub fn is_empty(&self) -> (r: bool)
        ensures
            r == (self.commands().len() == 0 && self.autocast().len() == 0),
    {
        self.commands.is_empty() && self.autocast.is_empty()
    }

    /// Orders the unit `tag` to use `ability` on `target`. A unit that was
    /// given the same order in this step already is not added again.
    pub fn command(&mut self, tag: u64, ability: AbilityId, target: Target, queue: bool)
        requires
            old(self).wf(),
        ensures
            final(self).wf(),
            final(self).commands() == with_tag(
                old(self).commands(),
                (CommandKey { ability, target, queue }),
                tag,
            ),
            final(self).autocast() == old(self).autocast(),
    {
        proof {
            lemma_with_tag(self.commands@, CommandKey { ability, target, queue }, tag);
        }
        self.commands.add(CommandKey { ability, target, queue }, tag);
    }

    /// Switches autocast of `ability` for the unit `tag`. A unit for which the
    /// same switch was asked in this step already is not added again.
    pub fn toggle_autocast(&mut self, tag: u64, ability: AbilityId)
        requires
            old(self).wf(),
        ensures
            final(self).wf(),
            final(self).autocast() == with_tag(old(self).autocast(), autocast_key(ability), tag),
            final(self).commands() == old(self).commands(),
    {
        proof {
            lemma_with_tag(self.autocast@, autocast_key(ability), tag);
        }
        let ghost before = self.autocast@;
        self.autocast.add(CommandKey { ability, target: Target::Nowhere, queue: false }, tag);
        proof {
            let after = self.autocast@;
            assert forall|i: int| 0 <= i < after.len() implies (#[trigger] after[i]).0
                == autocast_key(after[i].0.ability) by {
                if i < before.len() {
                    assert(before[i].0 == autocast_key(before[i].0.ability));
                }
            }
        }
    }

    /// Takes every waiting order out of the queue: one action for each
    /// distinct order, with all the units that were given it, the orders to
    /// use an ability first, then the switches of autocast.
    pub fn flush(&mut self) -> (actions: Vec<Action>)
        requires
            old(self).wf(),
        ensures
            final(self).wf(),
            final(self).commands() == Pending::empty(),
            final(self).autocast() == Pending::empty(),
            actions.len() == old(self).commands().len() + old(self).autocast().len(),
            forall|i: int|
                0 <= i < old(self).commands().len() ==> (#[trigger] actions[i])@
                    == ActionView::UnitCommand(
                    old(self).commands()[i].0.ability,
                    old(self).commands()[i].0.target,
                    old(self).commands()[i].1,
                    old(self).commands()[i].0.queue,
                ),
            forall|i: int|
                0 <= i < old(self).autocast().len() ==> (#[trigger] actions[
                    old(self).commands().len() + i
                ])@ == ActionView::ToggleAutocast(
                    old(self).autocast()[i].0.ability,
                    old(self).autocast()[i].1,
                ),
    {
        let ghost cmds = self.commands@;
        let ghost autos = self.autocast@;
        let mut actions: Vec<Action> = Vec::new();
        let mut commands = Buckets::new();
        std::mem::swap(&mut commands, &mut self.commands);
        let mut autocast = Buckets::new();
        std::mem::swap(&mut autocast, &mut self.autocast);
        let mut items = commands.items;
        let n = items.len();
        assert(items@.map_values(|b: Bucket| (b.key, b.tags@)) == cmds);
        let mut i: usize = 0;
        while i < n
            invariant
                i <= n,
                n == cmds.len(),
                items.len() == n,
                actions.len() == i,
                forall|j: int| i <= j < n ==> (#[trigger] items[j]).key == cmds[j].0 && items[j].tags@ == cmds[j].1,
                forall|j: int|
                    0 <= j < i ==> (#[trigger] actions[j])@ == ActionView::UnitCommand(
                        cmds[j].0.ability,
                        cmds[j].0.target,
                        cmds[j].1,
                        cmds[j].0.queue,
                    ),
            decreases n - i,
        {
            let key = items[i].key;
            let mut tags: Vec<u64> = Vec::new();
            std::mem::swap(&mut tags, &mut items[i].tags);
            actions.push(Action::UnitCommand(key.ability, key.target, tags, key.queue));
            i += 1;
        }
        let mut items = autocast.items;
        let m = items.len();
        assert(items@.map_values(|b: Bucket| (b.key, b.tags@)) == autos);
        let mut i: usize = 0;
        while i < m
            invariant
                i <= m,
                m == autos.len(),
                n == cmds.len(),
                items.len() == m,
                actions.len() == n + i,
                forall|j: int| i <= j < m ==> (#[trigger] items[j]).key == autos[j].0 && items[j].tags@ == autos[j].1,
                forall|j: int|
                    0 <= j < n ==> (#[trigger] actions[j])@ == ActionView::UnitCommand(
                        cmds[j].0.ability,
                        cmds[j].0.target,
                        cmds[j].1,
                        cmds[j].0.queue,
                    ),
                forall|j: int|
                    0 <= j < i ==> (#[trigger] actions[n + j])@ == ActionView::ToggleAutocast(
                        autos[j].0.ability,
                        autos[j].1,
                    ),
            decreases m - i,
        {
            let key = items[i].key;
            let mut tags: Vec<u64> = Vec::new();
            std::mem::swap(&mut tags, &mut items[i].tags);
            actions.push(Action::ToggleAutocast(key.ability, tags));
            i += 1;
        }
        actions
    }
}

} // verus!
