use vstd::prelude::*;

verus! {

/// What a bounded log holds after `entry` is appended to `entries` with room
/// for `max` entries: the entry goes to the end, and when the log then holds
/// more than `max` entries only the newest `max` are kept.
pub open spec fn window_push<E>(entries: Seq<E>, entry: E, max: nat) -> Seq<E> {
    let pushed = entries.push(entry);
    if pushed.len() > max {
        pushed.skip(pushed.len() - max)
    } else {
        pushed
    }
}

/// Appends `entry` to `v` and then drops the oldest entries until at most
/// `max` are left.
pub fn push_bounded<E>(v: &mut Vec<E>, entry: E, max: usize)
    ensures
        final(v)@ == window_push(old(v)@, entry, max as nat),
{
    let ghost pushed = old(v)@.push(entry);
    v.push(entry);
    while v.len() > max
        invariant
            v@.len() <= pushed.len(),
            v@ == pushed.skip(pushed.len() - v@.len()),
            pushed.len() > max ==> v@.len() >= max,
            pushed.len() <= max ==> v@ == pushed,
        decreases v@.len(),
    {
        let ghost before = v@;
        v.remove(0);
        assert(v@ =~= pushed.skip(pushed.len() - v@.len()));
    }
    assert(pushed.len() > max ==> v@.len() == max);
    assert(pushed.len() <= max ==> v@ =~= pushed.skip(0));
}

/// The log that starts as `init` and takes in each of `added` in turn,
/// with room for `max` entries.
pub open spec fn fill<E>(init: Seq<E>, added: Seq<E>, max: nat) -> Seq<E>
    decreases added.len(),
{
    if added.len() == 0 {
        init
    } else {
        window_push(fill(init, added.drop_last(), max), added.last(), max)
    }
}

/// A log with room for `max` entries holds no more than that after an entry
/// is added, however many it held before.
pub proof fn lemma_window_bounded<E>(entries: Seq<E>, entry: E, max: nat)
    ensures
        window_push(entries, entry, max).len() <= max,
{
}

/// The entry just added is the newest one kept, unless the log has no room
/// at all.
pub proof fn lemma_window_keeps_newest<E>(entries: Seq<E>, entry: E, max: nat)
    requires
        max > 0,
    ensures
        window_push(entries, entry, max).len() > 0,
        window_push(entries, entry, max).last() == entry,
{
}

/// An empty log that takes in a series of entries holds the last `max` of
/// them (all of them when there are fewer), in the order they came.
pub proof fn lemma_window_keeps_latest<E>(added: Seq<E>, max: nat)
    ensures
        fill(Seq::<E>::empty(), added, max) == added.subrange(
            added.len() - (if added.len() <= max { added.len() as int } else { max as int }),
            added.len() as int,
        ),
    decreases added.len(),
{
    if added.len() > 0 {
        let prefix = added.drop_last();
        lemma_window_keeps_latest(prefix, max);
        let k: int = if prefix.len() <= max { prefix.len() as int } else { max as int };
        let before = fill(Seq::<E>::empty(), prefix, max);
        assert(before == prefix.subrange(prefix.len() - k, prefix.len() as int));
        let pushed = before.push(added.last());
        assert(pushed =~= added.subrange(added.len() - 1 - k, added.len() as int));
        if pushed.len() > max {
            assert(pushed.skip(pushed.len() - max) =~= added.subrange(added.len() - max, added.len() as int));
        }
    } else {
        assert(added.subrange(0, 0) =~= Seq::<E>::empty());
    }
}

/// A record that can be kept in a log.
pub trait LogEntry: Default + Clone + Send + 'static {

}

/// A bounded, ordered store of log records.
pub trait LogStorage: Send {
    type Entry: LogEntry;

    /// The records held, oldest first.
    spec fn entries(&self) -> Seq<Self::Entry>;

    fn new() -> (s: Self) where Self: Sized
        ensures
            s.entries() == Seq::<Self::Entry>::empty(),
    ;

    fn get_entries(&self) -> (r: &Vec<Self::Entry>)
        ensures
            r@ == self.entries(),
    ;

    fn get_entries_mut(&mut self) -> (r: &mut Vec<Self::Entry>)
        ensures
            r@ == old(self).entries(),
            final(self).entries() == final(r)@,
    ;

    /// Appends `entry`; when more than `max_size` records are then held, only
    /// the newest `max_size` are kept.
    fn add_entry(&mut self, entry: Self::Entry, max_size: usize)
        ensures
            final(self).entries() == window_push(old(self).entries(), entry, max_size as nat),
    {
        let entries = self.get_entries_mut();
        push_bounded(entries, entry, max_size);
    }

    /// Drops every record.
    fn clear(&mut self)
        ensures
            final(self).entries() == Seq::<Self::Entry>::empty(),
    {
        self.get_entries_mut().clear();
    }
}

} // verus!
