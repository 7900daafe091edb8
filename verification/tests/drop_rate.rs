use ap_project_rustaceans_wit_attitudes::controller::DroneEvent;
use ap_project_rustaceans_wit_attitudes::drone::RustaceansWitAttitudesDrone;
use ap_project_rustaceans_wit_attitudes::drop_rate::draw;
use ap_project_rustaceans_wit_attitudes::drop_rate::DropRate;
use ap_project_rustaceans_wit_attitudes::drop_rate::DROP_RATE_SCALE;
use ap_project_rustaceans_wit_attitudes::neighbors::NeighborTable;
use ap_project_rustaceans_wit_attitudes::network::SourceRoutingHeader;
use ap_project_rustaceans_wit_attitudes::packet::Fragment;
use ap_project_rustaceans_wit_attitudes::packet::Packet;
use ap_project_rustaceans_wit_attitudes::protocol::Action;

#[test]
fn scale_is_a_million_parts() {
    assert_eq!(DROP_RATE_SCALE, 1_000_000);
}

#[test]
fn rates_up_to_one_are_accepted() {
    assert_eq!(DropRate::new(0).map(|r| r.parts()), Some(0));
    assert_eq!(DropRate::new(1).map(|r| r.parts()), Some(1));
    assert_eq!(DropRate::new(999_999).map(|r| r.parts()), Some(999_999));
    assert_eq!(DropRate::new(1_000_000).map(|r| r.parts()), Some(1_000_000));
}

#[test]
fn rates_above_one_are_rejected() {
    assert_eq!(DropRate::new(1_000_001), None);
    assert_eq!(DropRate::new(u32::MAX), None);
}

#[test]
fn never_and_always_are_the_ends_of_the_scale() {
    assert_eq!(DropRate::never().parts(), 0);
    assert_eq!(DropRate::always().parts(), DROP_RATE_SCALE);
    assert_eq!(DropRate::new(0), Some(DropRate::never()));
    assert_eq!(DropRate::new(DROP_RATE_SCALE), Some(DropRate::always()));
}

#[test]
fn a_draw_below_the_rate_drops() {
    let rate = DropRate::new(300_000).unwrap();
    assert!(rate.is_dropped(0));
    assert!(rate.is_dropped(299_999));
    assert!(!rate.is_dropped(300_000));
    assert!(!rate.is_dropped(999_999));
}

#[test]
fn rate_zero_never_drops() {
    let rate = DropRate::never();
    assert!(!rate.is_dropped(0));
    assert!(!rate.is_dropped(1));
    assert!(!rate.is_dropped(DROP_RATE_SCALE - 1));
}

#[test]
fn rate_one_always_drops() {
    let rate = DropRate::always();
    assert!(rate.is_dropped(0));
    assert!(rate.is_dropped(500_000));
    assert!(rate.is_dropped(DROP_RATE_SCALE - 1));
}

#[test]
fn draws_stay_below_the_scale() {
    for _ in 0..20_000 {
        assert!(draw() < DROP_RATE_SCALE);
    }
}

#[test]
fn draws_are_not_all_the_same() {
    let first = draw();
    let mut differs = false;
    for _ in 0..1_000 {
        if draw() != first {
            differs = true;
        }
    }
    assert!(differs);
}

#[test]
fn observed_loss_is_close_to_the_rate() {
    let mut neighbors = NeighborTable::new();
    neighbors.add(1, ());
    neighbors.add(3, ());
    let rate = DropRate::new(300_000).unwrap();
    let mut drone = RustaceansWitAttitudesDrone::new(2, neighbors, rate);
    let rounds: u32 = 20_000;
    let mut dropped: u32 = 0;
    for _ in 0..rounds {
        let chunk = Fragment { fragment_index: 0, total_n_fragments: 1, length: 1, data: [0; 128] };
        let packet = Packet::new_fragment(SourceRoutingHeader::new(vec![1, 2, 3], 1), 1, chunk);
        let actions = drone.handle_packet(packet).unwrap();
        match actions.first() {
            Some(Action::Report(DroneEvent::PacketDropped(_))) => {
                assert_eq!(actions.len(), 2);
                dropped = dropped + 1;
            }
            Some(Action::Deliver { to, .. }) => {
                assert_eq!(actions.len(), 1);
                assert_eq!(*to, 3);
            }
            other => panic!("unexpected action {:?}", other),
        }
    }
    let p = 0.3_f64;
    let observed = f64::from(dropped) / f64::from(rounds);
    let sigma = (p * (1.0 - p) / f64::from(rounds)).sqrt();
    assert!((observed - p).abs() < 6.0 * sigma, "observed {}", observed);
}
