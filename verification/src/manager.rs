//! The set of streams that play.

use vstd::prelude::*;
use crate::stream::NetStream;

verus! {

/// Knows which streams play.
///
/// It does not own the streams, nor move their data: it holds the identities
/// of those that the host has to tick, each once.
#[derive(Debug)]
pub struct StreamManager {
    /// The identities of the playing streams, in the order in which they
    /// began to play.
    playing_streams: Vec<u64>,
}

/// The playing streams once a stream plays: at the end, unless it plays
/// already.
pub open spec fn with_playing(order: Seq<u64>, id: u64) -> Seq<u64> {
    if order.contains(id) {
        order
    } else {
        order.push(id)
    }
}

/// The playing streams once a stream pauses.
pub open spec fn with_paused(order: Seq<u64>, id: u64) -> Seq<u64> {
    order.remove_value(id)
}

/// The playing streams once a stream has changed between playing and
/// pausing.
pub open spec fn with_toggled(order: Seq<u64>, id: u64) -> Seq<u64> {
    if order.contains(id) {
        with_paused(order, id)
    } else {
        with_playing(order, id)
    }
}

impl View for StreamManager {
    type V = Set<u64>;

    /// The identities of the playing streams.
    open spec fn view(&self) -> Set<u64> {
        self.order().to_set()
    }
}

/// The position of a value in a sequence, if it occurs.
fn position_of(items: &Vec<u64>, wanted: u64) -> (position: Option<usize>)
    ensures
        match position {
            Some(index) => index < items.len() && items[index as int] == wanted && forall|k: int|
                0 <= k < index ==> items[k] != wanted,
            None => !items@.contains(wanted),
        },
{
    let mut i: usize = 0;
    while i < items.len()
        invariant
            i <= items.len(),
            forall|k: int| 0 <= k < i ==> items[k] != wanted,
        decreases items.len() - i,
    {
        if items[i] == wanted {
            return Some(i);
        }
        i += 1;
    }
    None
}

impl Default for StreamManager {
    /// A manager without playing streams.
    fn default() -> (manager: StreamManager)
        ensures
            manager.order() == Seq::<u64>::empty(),
    {
        StreamManager::new()
    }
}

impl StreamManager {
    #[verifier::type_invariant]
    spec fn each_stream_once(&self) -> bool {
        self.playing_streams@.no_duplicates()
    }

    /// The playing streams in the order in which they began to play.
    pub closed spec fn order(&self) -> Seq<u64> {
        self.playing_streams@
    }

    /// A manager without playing streams.
    pub fn new() -> (manager: StreamManager)
        ensures
            manager.order() == Seq::<u64>::empty(),
    {
        StreamManager { playing_streams: Vec::new() }
    }

    /// Whether a stream plays.
    pub fn is_playing(&self, stream: &NetStream) -> (playing: bool)
        ensures
            playing == self@.contains(stream@.id),
            playing == self.order().contains(stream@.id),
    {
        position_of(&self.playing_streams, stream.id()).is_some()
    }

    /// Makes a stream play. One that plays already stays where it is.
    pub fn ensure_playing(&mut self, stream: &NetStream)
        ensures
            final(self).order() == with_playing(old(self).order(), stream@.id),
            final(self)@ == old(self)@.insert(stream@.id),
            final(self).order().no_duplicates(),
    {
        let id = stream.id();
        proof {
            use_type_invariant(&*self);
            lemma_playing_set(self.playing_streams@, id);
        }
        if position_of(&self.playing_streams, id).is_none() {
            let mut streams: Vec<u64> = Vec::new();
            core::mem::swap(&mut self.playing_streams, &mut streams);
            streams.push(id);
            core::mem::swap(&mut self.playing_streams, &mut streams);
        }
    }

    /// Makes a stream pause.
    pub fn ensure_paused(&mut self, stream: &NetStream)
        ensures
            final(self).order() == with_paused(old(self).order(), stream@.id),
            final(self)@ == old(self)@.remove(stream@.id),
            final(self).order().no_duplicates(),
    {
        let id = stream.id();
        proof {
            use_type_invariant(&*self);
            self.playing_streams@.index_of_first_ensures(id);
            lemma_paused_set(self.playing_streams@, id);
        }
        match position_of(&self.playing_streams, id) {
            Some(index) => {
                let mut streams: Vec<u64> = Vec::new();
                core::mem::swap(&mut self.playing_streams, &mut streams);
                streams.remove(index);
                core::mem::swap(&mut self.playing_streams, &mut streams);
            },
            None => {},
        }
    }

    /// Makes a stream pause if it plays, and play if it does not.
    pub fn toggle_paused(&mut self, stream: &NetStream)
        ensures
            final(self).order() == with_toggled(old(self).order(), stream@.id),
            final(self)@ == if old(self)@.contains(stream@.id) {
                old(self)@.remove(stream@.id)
            } else {
                old(self)@.insert(stream@.id)
            },
            final(self).order().no_duplicates(),
    {
        if self.is_playing(stream) {
            self.ensure_paused(stream);
        } else {
            self.ensure_playing(stream);
        }
    }

    /// The streams to tick in this frame: a copy of the playing streams as
    /// they are now, in their order. The host ticks each of them; a stream
    /// that begins or stops to play meanwhile does not change the copy.
    pub fn tick(&self) -> (snapshot: Vec<u64>)
        ensures
            snapshot@ == self.order(),
            snapshot@.no_duplicates(),
    {
        proof {
            use_type_invariant(self);
        }
        let mut snapshot: Vec<u64> = Vec::new();
        let mut i: usize = 0;
        while i < self.playing_streams.len()
            invariant
                i <= self.playing_streams.len(),
                snapshot@ == self.playing_streams@.take(i as int),
            decreases self.playing_streams.len() - i,
        {
            snapshot.push(self.playing_streams[i]);
            assert(self.playing_streams@.take(i as int).push(self.playing_streams@[i as int])
                =~= self.playing_streams@.take(i + 1));
            i += 1;
        }
        assert(self.playing_streams@.take(self.playing_streams.len() as int)
            =~= self.playing_streams@);
        snapshot
    }
}

/// Once a stream plays, the playing streams are those that played and that
/// one, and none of them occurs twice.
pub proof fn lemma_playing_set(order: Seq<u64>, id: u64)
    requires
        order.no_duplicates(),
    ensures
        with_playing(order, id).to_set() == order.to_set().insert(id),
        with_playing(order, id).no_duplicates(),
        with_playing(order, id).contains(id),
{
    let after = with_playing(order, id);
    if order.contains(id) {
        assert(after.to_set() =~= order.to_set().insert(id));
    } else {
        assert(after[order.len() as int] == id);
        assert forall|x: u64| after.contains(x) <==> (order.contains(x) || x == id) by {
            if order.contains(x) {
                let k = choose|k: int| 0 <= k < order.len() && order[k] == x;
                assert(after[k] == x);
            }
        }
        assert(after.to_set() =~= order.to_set().insert(id));
    }
}

/// Once a stream pauses, the playing streams are those that played but that
/// one, in their order, and none of them occurs twice.
pub proof fn lemma_paused_set(order: Seq<u64>, id: u64)
    requires
        order.no_duplicates(),
    ensures
        with_paused(order, id).to_set() == order.to_set().remove(id),
        with_paused(order, id).no_duplicates(),
        !with_paused(order, id).contains(id),
{
    order.index_of_first_ensures(id);
    match order.index_of_first(id) {
        Some(index) => {
            let rest = order.remove(index);
            assert forall|x: u64| rest.contains(x) <==> (order.contains(x) && x != id) by {
                if rest.contains(x) {
                    let k = choose|k: int| 0 <= k < rest.len() && rest[k] == x;
                    if k < index {
                        assert(order[k] == x);
                    } else {
                        assert(order[k + 1] == x);
                    }
                }
                if order.contains(x) && x != id {
                    let k = choose|k: int| 0 <= k < order.len() && order[k] == x;
                    if k < index {
                        assert(rest[k] == x);
                    } else {
                        assert(rest[k - 1] == x);
                    }
                }
            }
            assert(rest.to_set() =~= order.to_set().remove(id));
        },
        None => {
            assert(order.to_set() =~= order.to_set().remove(id));
        },
    }
}

/// To make a stream play twice is to make it play once, and to make it pause
/// twice is to make it pause once.
pub proof fn lemma_membership_is_idempotent(order: Seq<u64>, id: u64)
    requires
        order.no_duplicates(),
    ensures
        with_playing(with_playing(order, id), id) == with_playing(order, id),
        with_paused(with_paused(order, id), id) == with_paused(order, id),
{
    lemma_playing_set(order, id);
    lemma_paused_set(order, id);
    with_paused(order, id).index_of_first_ensures(id);
}

/// To toggle a stream changes whether it plays, and that of no other; to
/// toggle it twice leaves the same streams playing.
pub proof fn lemma_toggle_flips_membership(order: Seq<u64>, id: u64, other: u64)
    requires
        order.no_duplicates(),
    ensures
        with_toggled(order, id).contains(id) == !order.contains(id),
        other != id ==> with_toggled(order, id).contains(other) == order.contains(other),
        with_toggled(order, id).no_duplicates(),
        with_toggled(with_toggled(order, id), id).to_set() == order.to_set(),
{
    lemma_playing_set(order, id);
    lemma_paused_set(order, id);
    let once = with_toggled(order, id);
    lemma_playing_set(once, id);
    lemma_paused_set(once, id);
    assert(once.to_set().contains(other) == once.contains(other));
    assert(order.to_set().contains(other) == order.contains(other));
    if order.contains(id) {
        assert(order.to_set().contains(id));
        assert(order.to_set().remove(id).insert(id) =~= order.to_set());
    } else {
        assert(!order.to_set().contains(id));
        assert(order.to_set().insert(id).remove(id) =~= order.to_set());
    }
}

} // verus!
