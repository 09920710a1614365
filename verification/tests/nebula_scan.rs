use stellar_nebula_nomad::invocation::{Address, Invocation};
use stellar_nebula_nomad::nebula_scan::{NebulaNomadContract, ScanReply, ScanStep};

type Step = ScanStep<&'static str, u8, [u8; 2]>;

fn start() -> Step {
    let player = Address { id: 7 };
    let mut call = Invocation::new(1);
    call.authorize(player);
    NebulaNomadContract::scan_nebula(&call, [9; 32], player)
}

#[test]
fn scan_runs_in_order() {
    let step = start();
    assert!(matches!(step, ScanStep::Generate { seed, player } if seed == [9; 32] && player.id == 7));
    let step = step.resume(ScanReply::Layout("grid")).unwrap();
    assert!(matches!(step, ScanStep::Rate { player, layout: "grid" } if player.id == 7));
    let step = step.resume(ScanReply::Rarity(3)).unwrap();
    assert!(matches!(step, ScanStep::Digest { layout: "grid", rarity: 3, .. }));
    let step = step.resume(ScanReply::Hash([1, 2])).unwrap();
    assert!(matches!(
        step,
        ScanStep::Announce { player, layout: "grid", rarity: 3, layout_hash: [1, 2] } if player.id == 7
    ));
    let step = step.resume(ScanReply::Announced).unwrap();
    assert!(matches!(step, ScanStep::Finished { layout: "grid", rarity: 3 }));
    assert!(step.resume(ScanReply::Announced).is_none());
}

#[test]
fn scan_takes_no_reply_out_of_turn() {
    assert!(start().resume(ScanReply::Rarity(3)).is_none());
    assert!(start().resume(ScanReply::Hash([1, 2])).is_none());
    assert!(start().resume(ScanReply::Announced).is_none());
}
