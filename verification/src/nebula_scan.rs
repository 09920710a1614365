//! The order of work of a nebula scan.

use vstd::prelude::*;

use crate::invocation::{Address, Invocation};

verus! {

/// The game contract.
pub struct NebulaNomadContract;

/// What a scan needs next. Layouts, rarity tiers and layout hashes are passed
/// through as they are.
pub enum ScanStep<L, R, H> {
    /// The layout that belongs to the seed and the player is to be generated.
    Generate { seed: [u8; 32], player: Address },
    /// The rarity tier of the layout is to be calculated.
    Rate { player: Address, layout: L },
    /// The hash of the layout is to be computed.
    Digest { player: Address, layout: L, rarity: R },
    /// It is to be announced that the player scanned a layout with this hash
    /// and this rarity.
    Announce { player: Address, layout: L, rarity: R, layout_hash: H },
    /// The scan is done.
    Finished { layout: L, rarity: R },
}

/// What was obtained for a step of a scan.
pub enum ScanReply<L, R, H> {
    Layout(L),
    Rarity(R),
    Hash(H),
    Announced,
}

impl<L, R, H> ScanStep<L, R, H> {
    /// The step that follows once `reply` is in; none if that is not what the
    /// step is waiting for.
    pub open spec fn next(self, reply: ScanReply<L, R, H>) -> Option<ScanStep<L, R, H>> {
        match (self, reply) {
            (ScanStep::Generate { seed, player }, ScanReply::Layout(layout)) => Some(
                ScanStep::Rate { player, layout },
            ),
            (ScanStep::Rate { player, layout }, ScanReply::Rarity(rarity)) => Some(
                ScanStep::Digest { player, layout, rarity },
            ),
            (ScanStep::Digest { player, layout, rarity }, ScanReply::Hash(layout_hash)) => Some(
                ScanStep::Announce { player, layout, rarity, layout_hash },
            ),
            (
                ScanStep::Announce { player, layout, rarity, layout_hash },
                ScanReply::Announced,
            ) => Some(ScanStep::Finished { layout, rarity }),
            _ => None,
        }
    }

    /// Continues a scan with what was obtained for its current step.
    pub fn resume(self, reply: ScanReply<L, R, H>) -> (step: Option<ScanStep<L, R, H>>)
        ensures
            step == self.next(reply),
    {
        match (self, reply) {
            (ScanStep::Generate { seed: _, player }, ScanReply::Layout(layout)) => Some(
                ScanStep::Rate { player, layout },
            ),
            (ScanStep::Rate { player, layout }, ScanReply::Rarity(rarity)) => Some(
                ScanStep::Digest { player, layout, rarity },
            ),
            (ScanStep::Digest { player, layout, rarity }, ScanReply::Hash(layout_hash)) => Some(
                ScanStep::Announce { player, layout, rarity, layout_hash },
            ),
            (
                ScanStep::Announce { player: _, layout, rarity, layout_hash: _ },
                ScanReply::Announced,
            ) => Some(ScanStep::Finished { layout, rarity }),
            _ => None,
        }
    }
}

impl NebulaNomadContract {
    /// Full scan: generates the layout, calculates its rarity, computes its
    /// hash, announces the scan, and ends with layout and rarity. The player
    /// must have authorised the call.
    pub fn scan_nebula<L, R, H>(call: &Invocation, seed: [u8; 32], player: Address) -> (step:
        ScanStep<L, R, H>)
        requires
            call.authorized_by(player),
        ensures
            step == (ScanStep::<L, R, H>::Generate { seed, player }),
    {
        ScanStep::Generate { seed, player }
    }
}

/// Law of the scan: whatever layout, rarity and hash come back, the hash and the
/// rarity are announced for the player who started the scan, and the scan ends
/// with that layout and that rarity.
pub proof fn law_scan<L, R, H>(
    seed: [u8; 32],
    player: Address,
    layout: L,
    rarity: R,
    layout_hash: H,
)
    ensures
        ({
            let start = ScanStep::<L, R, H>::Generate { seed, player };
            let rate = start.next(ScanReply::Layout(layout));
            let digest = rate->0.next(ScanReply::Rarity(rarity));
            let announce = digest->0.next(ScanReply::Hash(layout_hash));
            let end = announce->0.next(ScanReply::Announced);
            &&& rate == Some(ScanStep::<L, R, H>::Rate { player, layout })
            &&& digest == Some(ScanStep::<L, R, H>::Digest { player, layout, rarity })
            &&& announce == Some(
                ScanStep::<L, R, H>::Announce { player, layout, rarity, layout_hash },
            )
            &&& end == Some(ScanStep::<L, R, H>::Finished { layout, rarity })
        }),
{
}

/// Law of turns: a scan moves on exactly if it gets what its step is waiting for;
/// a scan that is done waits for nothing.
pub proof fn law_scan_turns<L, R, H>(step: ScanStep<L, R, H>, reply: ScanReply<L, R, H>)
    ensures
        step.next(reply) is Some <==> {
            ||| step is Generate && reply is Layout
            ||| step is Rate && reply is Rarity
            ||| step is Digest && reply is Hash
            ||| step is Announce && reply is Announced
        },
{
}

} // verus!
