//! Identifier synthesis: decimal rendering, per-client usernames, and the
//! random room identifiers the orchestrator hands out.

use vstd::prelude::*;

verus! {

/// The decimal digits of `n`, most significant first, no leading zeros
/// (a single `0` for zero).
pub open spec fn decimal(n: nat) -> Seq<u8>
    decreases n,
{
    if n < 10 {
        seq![(48 + n) as u8]
    } else {
        decimal(n / 10) + seq![(48 + n % 10) as u8]
    }
}

/// Appends the decimal digits of `n`.
pub fn push_decimal(out: &mut Vec<u8>, n: u64)
    ensures
        final(out)@ == old(out)@ + decimal(n as nat),
    decreases n,
{
    if n < 10 {
        out.push(48 + n as u8);
        proof {
            assert(out@ =~= old(out)@ + decimal(n as nat));
        }
    } else {
        push_decimal(out, n / 10);
        out.push(48 + (n % 10) as u8);
        proof {
            assert(out@ =~= old(out)@ + decimal(n as nat));
        }
    }
}

/// "player-" followed by the client's position in its room.
pub open spec fn player_name(i: nat) -> Seq<u8> {
    seq![112u8, 108, 97, 121, 101, 114, 45] + decimal(i)
}

/// The username for the `i`-th client of a room.
pub fn username_for(i: u32) -> (r: Vec<u8>)
    ensures
        r@ == player_name(i as nat),
{
    let mut out: Vec<u8> = vec![112u8, 108, 97, 121, 101, 114, 45];
    push_decimal(&mut out, i as u64);
    proof {
        assert(out@ =~= player_name(i as nat));
    }
    out
}

/// Relies on `nanoid::format` with the URL-safe default alphabet: the
/// returned identifier is exactly six characters drawn from that ASCII
/// alphabet, so six bytes.  The draw is random; nothing else is assumed.
#[verifier::external_body]
fn random_token() -> (r: Vec<u8>)
    ensures
        r@.len() == 6,
{
    nanoid::format(nanoid::rngs::default, &nanoid::alphabet::SAFE, 6).into_bytes()
}

/// A fresh room identifier: a random six-character token, a dash, and the
/// room's sequence index.
pub fn room_name(index: u32) -> (r: Vec<u8>)
    ensures
        exists|tok: Seq<u8>|
            tok.len() == 6 && r@ == tok + seq![45u8] + decimal(index as nat),
{
    let mut out = random_token();
    let ghost tok = out@;
    out.push(45);
    push_decimal(&mut out, index as u64);
    proof {
        assert(out@ =~= tok + seq![45u8] + decimal(index as nat));
        assert(tok.len() == 6 && out@ == tok + seq![45u8] + decimal(index as nat));
    }
    out
}

} // verus!
