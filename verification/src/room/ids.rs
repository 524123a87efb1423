//! Fresh identifiers for rooms and players.

use vstd::prelude::*;
use vstd::string::StrSliceExecFns;
use vstd::string::StringExecFns;
use rand::RngExt;

verus! {

/// How many characters a room id has.
pub const ROOM_ID_LENGTH: usize = 6;

/// How many characters a player id has.
pub const PLAYER_ID_LENGTH: usize = 36;

/// The characters that a room id is made of.
pub open spec fn room_id_alphabet() -> Seq<char> {
    "ABCDEFGHIJKLMNOPQRSTUVWXYZ0123456789"@
}

/// Six characters of the alphabet.
pub open spec fn is_room_id(id: Seq<char>) -> bool {
    &&& id.len() == ROOM_ID_LENGTH
    &&& forall|i: int| 0 <= i < id.len() ==> room_id_alphabet().contains(#[trigger] id[i])
}

/// Calls `random_range` of the `rand` crate on the thread's generator, for the
/// range from 0 up to, not including, `bound`. The value lies in that range;
/// which one it is depends on chance.
#[verifier::external_body]
fn random_below(bound: usize) -> (r: usize)
    requires
        bound > 0,
    ensures
        r < bound,
{
    rand::rng().random_range(0..bound)
}

/// Calls `Uuid::new_v4` of the `uuid` crate and writes the identifier in its
/// hyphenated form, which has 36 characters. Which identifier it is depends on
/// chance.
#[verifier::external_body]
pub(crate) fn fresh_player_id() -> (r: String)
    ensures
        r@.len() == PLAYER_ID_LENGTH,
{
    uuid::Uuid::new_v4().to_string()
}

/// A room id drawn at random. Nothing keeps it apart from the ids of the rooms
/// that are open.
pub(crate) fn generate_room_id() -> (r: String)
    ensures
        is_room_id(r@),
{
    let alphabet: &'static str = "ABCDEFGHIJKLMNOPQRSTUVWXYZ0123456789";
    proof {
        reveal_strlit("ABCDEFGHIJKLMNOPQRSTUVWXYZ0123456789");
        assert(alphabet@.len() == 36);
        assert(alphabet.is_ascii());
    }
    let mut id = String::new();
    let mut i: usize = 0;
    while i < ROOM_ID_LENGTH
        invariant
            i <= ROOM_ID_LENGTH,
            alphabet@ == room_id_alphabet(),
            alphabet@.len() == 36,
            alphabet.is_ascii(),
            id@.len() == i,
            forall|j: int| 0 <= j < i ==> room_id_alphabet().contains(#[trigger] id@[j]),
        decreases ROOM_ID_LENGTH - i,
    {
        let pick: usize = random_below(36);
        let letter = alphabet.substring_ascii(pick, pick + 1);
        let ghost before = id@;
        id.append(letter);
        proof {
            assert(letter@ =~= seq![alphabet@[pick as int]]);
            assert(id@ =~= before.push(alphabet@[pick as int]));
            assert forall|j: int| 0 <= j < i + 1 implies room_id_alphabet().contains(
                #[trigger] id@[j],
            ) by {
                if j < i {
                    assert(id@[j] == before[j]);
                } else {
                    assert(id@[j] == alphabet@[pick as int]);
                }
            }
        }
        i += 1;
    }
    id
}

} // verus!
