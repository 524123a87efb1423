//! The table of open rooms as a map from room id to room, and how changes to
//! the list that holds the rooms show in it.

use vstd::prelude::*;
use crate::room::models::RoomView;

verus! {

/// Some room of the list has this id.
pub open spec fn has_room<T>(rooms: Seq<RoomView<T>>, id: Seq<char>) -> bool {
    exists|i: int| 0 <= i < rooms.len() && (#[trigger] rooms[i]).id == id
}

/// No two rooms of the list have the same id.
pub open spec fn distinct_ids<T>(rooms: Seq<RoomView<T>>) -> bool {
    forall|i: int, j: int|
        0 <= i < rooms.len() && 0 <= j < rooms.len() && i != j ==> (#[trigger] rooms[i]).id != (
        #[trigger] rooms[j]).id
}

/// The rooms of the list by their ids.
pub open spec fn table_of<T>(rooms: Seq<RoomView<T>>) -> Map<Seq<char>, RoomView<T>> {
    Map::new(
        |id: Seq<char>| has_room(rooms, id),
        |id: Seq<char>| rooms[choose|i: int| 0 <= i < rooms.len() && (#[trigger] rooms[i]).id == id],
    )
}

/// A room of the list is found under its id.
pub proof fn lemma_table_lookup<T>(rooms: Seq<RoomView<T>>, i: int)
    requires
        distinct_ids(rooms),
        0 <= i < rooms.len(),
    ensures
        table_of(rooms).dom().contains(rooms[i].id),
        table_of(rooms)[rooms[i].id] == rooms[i],
{
    let id = rooms[i].id;
    let k = choose|k: int| 0 <= k < rooms.len() && (#[trigger] rooms[k]).id == id;
    assert(k == i);
}

/// An id that no room of the list has is not in the table.
pub proof fn lemma_table_missing<T>(rooms: Seq<RoomView<T>>, id: Seq<char>)
    requires
        forall|i: int| 0 <= i < rooms.len() ==> (#[trigger] rooms[i]).id != id,
    ensures
        !table_of(rooms).dom().contains(id),
{
}

/// A room with a new id, put at the end of the list, is inserted in the table.
pub proof fn lemma_table_push<T>(rooms: Seq<RoomView<T>>, room: RoomView<T>)
    requires
        distinct_ids(rooms),
        !has_room(rooms, room.id),
    ensures
        distinct_ids(rooms.push(room)),
        table_of(rooms.push(room)) == table_of(rooms).insert(room.id, room),
{
    let after = rooms.push(room);
    assert forall|i: int, j: int|
        0 <= i < after.len() && 0 <= j < after.len() && i != j implies (#[trigger] after[i]).id != (
    #[trigger] after[j]).id by {
        if i < rooms.len() && j < rooms.len() {
            assert(rooms[i].id != rooms[j].id);
        } else if i < rooms.len() {
            assert(rooms[i].id != room.id);
        } else {
            assert(rooms[j].id != room.id);
        }
    }
    assert forall|id: Seq<char>| has_room(after, id) <==> (has_room(rooms, id) || id == room.id) by {
        if has_room(after, id) {
            let i = choose|i: int| 0 <= i < after.len() && (#[trigger] after[i]).id == id;
            if i < rooms.len() {
                assert(rooms[i].id == id);
            }
        }
        if has_room(rooms, id) {
            let i = choose|i: int| 0 <= i < rooms.len() && (#[trigger] rooms[i]).id == id;
            assert(after[i].id == id);
        }
        if id == room.id {
            assert(after[rooms.len() as int].id == id);
        }
    }
    assert forall|id: Seq<char>| has_room(after, id) implies #[trigger] table_of(after)[id]
        == table_of(rooms).insert(room.id, room)[id] by {
        let i = choose|i: int| 0 <= i < after.len() && (#[trigger] after[i]).id == id;
        lemma_table_lookup(after, i);
        if i < rooms.len() {
            assert(rooms[i].id == id);
            lemma_table_lookup(rooms, i);
        }
    }
    assert(table_of(after) =~= table_of(rooms).insert(room.id, room));
}

/// A room that takes the place of the room with its id is inserted in the
/// table.
pub proof fn lemma_table_update<T>(rooms: Seq<RoomView<T>>, i: int, room: RoomView<T>)
    requires
        distinct_ids(rooms),
        0 <= i < rooms.len(),
        room.id == rooms[i].id,
    ensures
        distinct_ids(rooms.update(i, room)),
        table_of(rooms.update(i, room)) == table_of(rooms).insert(room.id, room),
{
    let after = rooms.update(i, room);
    assert forall|a: int, b: int|
        0 <= a < after.len() && 0 <= b < after.len() && a != b implies (#[trigger] after[a]).id != (
    #[trigger] after[b]).id by {
        assert(after[a].id == rooms[a].id);
        assert(after[b].id == rooms[b].id);
    }
    assert forall|id: Seq<char>| has_room(after, id) <==> has_room(rooms, id) by {
        if has_room(after, id) {
            let k = choose|k: int| 0 <= k < after.len() && (#[trigger] after[k]).id == id;
            assert(rooms[k].id == id);
        }
        if has_room(rooms, id) {
            let k = choose|k: int| 0 <= k < rooms.len() && (#[trigger] rooms[k]).id == id;
            assert(after[k].id == id);
        }
    }
    assert(has_room(rooms, room.id)) by {
        assert(rooms[i].id == room.id);
    }
    assert forall|id: Seq<char>| has_room(after, id) implies #[trigger] table_of(after)[id]
        == table_of(rooms).insert(room.id, room)[id] by {
        let k = choose|k: int| 0 <= k < after.len() && (#[trigger] after[k]).id == id;
        lemma_table_lookup(after, k);
        if k != i {
            assert(rooms[k].id == id);
            lemma_table_lookup(rooms, k);
        }
    }
    assert(table_of(after) =~= table_of(rooms).insert(room.id, room));
}

/// A room taken out of the list is removed from the table.
pub proof fn lemma_table_remove<T>(rooms: Seq<RoomView<T>>, i: int)
    requires
        distinct_ids(rooms),
        0 <= i < rooms.len(),
    ensures
        distinct_ids(rooms.remove(i)),
        table_of(rooms.remove(i)) == table_of(rooms).remove(rooms[i].id),
{
    let after = rooms.remove(i);
    let gone = rooms[i].id;
    assert forall|a: int| 0 <= a < after.len() implies #[trigger] after[a] == rooms[if a < i {
        a
    } else {
        a + 1
    }] by {}
    assert forall|a: int, b: int|
        0 <= a < after.len() && 0 <= b < after.len() && a != b implies (#[trigger] after[a]).id != (
    #[trigger] after[b]).id by {
        let a0 = if a < i {
            a
        } else {
            a + 1
        };
        let b0 = if b < i {
            b
        } else {
            b + 1
        };
        assert(after[a] == rooms[a0]);
        assert(after[b] == rooms[b0]);
        assert(rooms[a0].id != rooms[b0].id);
    }
    assert forall|id: Seq<char>| has_room(after, id) <==> (has_room(rooms, id) && id != gone) by {
        if has_room(after, id) {
            let k = choose|k: int| 0 <= k < after.len() && (#[trigger] after[k]).id == id;
            let k0 = if k < i {
                k
            } else {
                k + 1
            };
            assert(after[k] == rooms[k0]);
            assert(rooms[k0].id == id);
            assert(rooms[k0].id != rooms[i].id);
        }
        if has_room(rooms, id) && id != gone {
            let k = choose|k: int| 0 <= k < rooms.len() && (#[trigger] rooms[k]).id == id;
            let k1 = if k < i {
                k
            } else {
                k - 1
            };
            assert(after[k1] == rooms[k]);
            assert(after[k1].id == id);
        }
    }
    assert forall|id: Seq<char>| has_room(after, id) implies #[trigger] table_of(after)[id]
        == table_of(rooms).remove(gone)[id] by {
        let k = choose|k: int| 0 <= k < after.len() && (#[trigger] after[k]).id == id;
        lemma_table_lookup(after, k);
        let k0 = if k < i {
            k
        } else {
            k + 1
        };
        assert(after[k] == rooms[k0]);
        lemma_table_lookup(rooms, k0);
    }
    assert(table_of(after) =~= table_of(rooms).remove(gone));
}

} // verus!
