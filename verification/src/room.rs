//! What is known of the room that a client has joined.
use serde_json::Value;
use vstd::prelude::*;

verus! {

/// What the server says of the room as soon as a client arrives: the games that
/// are played in it, each once and with the checksum of its data package, and
/// everything else as it arrived.
#[derive(Debug, PartialEq)]
pub struct RoomInfo {
    datapackage_checksums: Vec<(String, String)>,
    body: Value,
}

/// The map that comes of entering some pairs one after the other, where a later
/// value takes the place of an earlier one under the same name.
pub open spec fn entered(pairs: Seq<(String, String)>) -> Map<Seq<char>, Seq<char>>
    decreases pairs.len(),
{
    if pairs.len() == 0 {
        Map::empty()
    } else {
        entered(pairs.drop_last()).insert(pairs.last().0@, pairs.last().1@)
    }
}

/// The names of some pairs, in their order.
pub open spec fn names(pairs: Seq<(String, String)>) -> Seq<Seq<char>> {
    Seq::new(pairs.len(), |i: int| pairs[i].0@)
}

/// Some names without repetition, in the order in which each is first seen.
pub open spec fn first_seen(all: Seq<Seq<char>>) -> Seq<Seq<char>>
    decreases all.len(),
{
    if all.len() == 0 {
        Seq::empty()
    } else {
        let earlier = first_seen(all.drop_last());
        if earlier.contains(all.last()) {
            earlier
        } else {
            earlier.push(all.last())
        }
    }
}

impl RoomInfo {
    /// The games and their checksums, in the order in which they are listed.
    pub closed spec fn listing(&self) -> Seq<(String, String)> {
        self.datapackage_checksums@
    }

    /// The checksum of each game of the room.
    pub open spec fn checksums(&self) -> Map<Seq<char>, Seq<char>> {
        entered(self.listing())
    }

    /// The games of the room, in the order in which they are listed.
    pub open spec fn games(&self) -> Seq<Seq<char>> {
        names(self.listing())
    }

    /// The rest of the packet.
    pub closed spec fn rest(&self) -> Value {
        self.body
    }

    /// No game is listed twice.
    #[verifier::type_invariant]
    spec fn lists_each_game_once(self) -> bool {
        names(self.datapackage_checksums@).no_duplicates()
    }

    /// Notes a room with the games and checksums that `pairs` gives. Of two
    /// checksums for one game the later one counts. The games are listed in the
    /// order in which they are first named.
    pub fn new(pairs: Vec<(String, String)>, body: Value) -> (room: RoomInfo)
        ensures
            room.checksums() == entered(pairs@),
            room.games() == first_seen(names(pairs@)),
            room.games().no_duplicates(),
            room.rest() == body,
    {
        let mut kept: Vec<(String, String)> = Vec::new();
        let mut i: usize = 0;
        while i < pairs.len()
            invariant
                i <= pairs.len(),
                names(kept@).no_duplicates(),
                entered(kept@) == entered(pairs@.take(i as int)),
                names(kept@) == first_seen(names(pairs@.take(i as int))),
            decreases pairs.len() - i,
        {
            let entry: (String, String) = (pairs[i].0.clone(), pairs[i].1.clone());
            let ghost before = kept@;
            let mut at: usize = 0;
            while at < kept.len() && kept[at].0 != entry.0
                invariant
                    at <= kept.len(),
                    forall|j: int| 0 <= j < at ==> kept@[j].0@ != entry.0@,
                decreases kept.len() - at,
            {
                at = at + 1;
            }
            proof {
                assert(pairs@.take(i + 1).drop_last() =~= pairs@.take(i as int));
                assert(names(pairs@.take(i + 1)).drop_last() =~= names(pairs@.take(i as int)));
            }
            if at < kept.len() {
                proof {
                    lemma_entered_update(before, at as int, entry);
                }
                assert(names(before)[at as int] == entry.0@);
                kept.set(at, entry);
                assert(names(kept@) =~= names(before));
            } else {
                kept.push(entry);
                assert(kept@.drop_last() =~= before);
                assert(names(kept@) =~= names(before).push(entry.0@));
            }
            i = i + 1;
        }
        assert(pairs@.take(i as int) =~= pairs@);
        RoomInfo { datapackage_checksums: kept, body }
    }

    /// The games of the room, each once.
    pub fn game_names(&self) -> (games: Vec<String>)
        ensures
            names_of(games@) == self.games(),
            names_of(games@).no_duplicates(),
            names_of(games@).to_set() == self.checksums().dom(),
    {
        proof {
            use_type_invariant(self);
            lemma_entered_dom(self.datapackage_checksums@);
        }
        let mut games: Vec<String> = Vec::new();
        let mut i: usize = 0;
        while i < self.datapackage_checksums.len()
            invariant
                i <= self.datapackage_checksums.len(),
                games@.len() == i,
                forall|j: int| 0 <= j < i ==> games@[j]@ == self.datapackage_checksums@[j].0@,
            decreases self.datapackage_checksums.len() - i,
        {
            games.push(self.datapackage_checksums[i].0.clone());
            i = i + 1;
        }
        assert(names_of(games@) =~= self.games());
        games
    }

    /// The games and their checksums, in the order in which they are listed.
    pub fn datapackage_checksums(&self) -> (listing: &Vec<(String, String)>)
        ensures
            listing@ == self.listing(),
    {
        &self.datapackage_checksums
    }

    /// The rest of the packet.
    pub fn body(&self) -> (body: &Value)
        ensures
            *body == self.rest(),
    {
        &self.body
    }
}

/// The texts of some strings, in their order.
pub open spec fn names_of(strings: Seq<String>) -> Seq<Seq<char>> {
    Seq::new(strings.len(), |i: int| strings[i]@)
}

/// Giving the one entry of a name another value is entering that value.
proof fn lemma_entered_update(pairs: Seq<(String, String)>, at: int, entry: (String, String))
    requires
        0 <= at < pairs.len(),
        pairs[at].0@ == entry.0@,
        names(pairs).no_duplicates(),
    ensures
        entered(pairs.update(at, entry)) == entered(pairs).insert(entry.0@, entry.1@),
    decreases pairs.len(),
{
    let updated = pairs.update(at, entry);
    let last = pairs.last();
    if at == pairs.len() - 1 {
        assert(updated.drop_last() =~= pairs.drop_last());
        assert(entered(updated) =~= entered(pairs).insert(entry.0@, entry.1@));
    } else {
        assert(updated.drop_last() =~= pairs.drop_last().update(at, entry));
        assert(names(pairs.drop_last()) =~= names(pairs).drop_last());
        lemma_entered_update(pairs.drop_last(), at, entry);
        assert(names(pairs)[at] != names(pairs)[pairs.len() - 1]);
        assert(entered(updated) =~= entered(pairs).insert(entry.0@, entry.1@));
    }
}

/// The names that were entered are the names of the map.
proof fn lemma_entered_dom(pairs: Seq<(String, String)>)
    ensures
        entered(pairs).dom() == names(pairs).to_set(),
    decreases pairs.len(),
{
    if pairs.len() > 0 {
        let shorter = pairs.drop_last();
        lemma_entered_dom(shorter);
        assert(names(pairs) =~= names(shorter).push(pairs.last().0@));
        assert forall|name: Seq<char>| #[trigger]
            names(pairs).to_set().contains(name) == names(shorter).to_set().insert(
                pairs.last().0@,
            ).contains(name) by {
            if names(shorter).contains(name) {
                let j = choose|j: int| 0 <= j < names(shorter).len() && names(shorter)[j] == name;
                assert(names(pairs)[j] == name);
            }
            assert(names(pairs)[pairs.len() - 1] == pairs.last().0@);
        }
        assert(names(pairs).to_set() =~= names(shorter).to_set().insert(pairs.last().0@));
    } else {
        assert(entered(pairs).dom() =~= names(pairs).to_set());
    }
}

} // verus!
