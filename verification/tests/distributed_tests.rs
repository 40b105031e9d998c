use std::sync::Arc;

use fastshare::distributed::chunk_router::{ChunkRouter, RouteType};
use fastshare::distributed::peer_manager::{
    assign_chunk_ranges, chunk_range, estimate_bandwidth, supports_feature, DistributedPlan,
    PeerManager, PeerStatus, MAX_RELAY_PEERS,
};
use fastshare::network::addr::{EndpointAddr, IpAddress};
use fastshare::network::discovery::{local_device_info, DeviceInfo};

fn device(id: &str, bandwidth: &str, ip: u32) -> DeviceInfo {
    let mut d = local_device_info(id.to_string(), format!("dev-{}", id), IpAddress::V4(ip), 6000, "linux");
    d.max_bandwidth = bandwidth.to_string();
    d
}

#[test]
fn bandwidth_classes() {
    assert_eq!(estimate_bandwidth("10Gb"), 1_250_000_000);
    assert_eq!(estimate_bandwidth("5GB"), 625_000_000);
    // "2.5g" also contains "5g", which is looked for first
    assert_eq!(estimate_bandwidth("2.5Gbps"), 625_000_000);
    assert_eq!(estimate_bandwidth("5Gb"), 625_000_000);
    assert_eq!(estimate_bandwidth("2Gb"), 312_500_000);
    assert_eq!(estimate_bandwidth("2G"), 312_500_000);
    assert_eq!(estimate_bandwidth("1Gb"), 125_000_000);
    assert_eq!(estimate_bandwidth("100Mb"), 12_500_000);
    assert_eq!(estimate_bandwidth("fast"), 12_500_000);
}

#[test]
fn feature_lookup() {
    let d = device("a", "1Gb", 1);
    assert!(supports_feature(&d.supported_features, "distributed_transfer"));
    assert!(!supports_feature(&d.supported_features, "teleport"));
}

#[test]
fn register_update_remove() {
    let mut m = PeerManager::new("me".to_string());
    assert_eq!(m.peer_count(), 0);
    m.register_peer(device("a", "10Gb", 0x0a00_0001));
    m.register_peer(device("b", "1Gb", 0x0a00_0002));
    assert_eq!(m.peer_count(), 2);
    let a = m.get_peer("a").unwrap();
    assert_eq!(a.status, PeerStatus::Discovered);
    assert_eq!(a.estimated_bandwidth, 1_250_000_000);
    assert_eq!(a.addr, EndpointAddr { ip: IpAddress::V4(0x0a00_0001), port: 6000 });
    m.update_peer_status("a", PeerStatus::Transferring);
    assert_eq!(m.get_peer("a").unwrap().status, PeerStatus::Transferring);
    m.update_peer_status("ghost", PeerStatus::Connected);
    assert!(m.get_peer("ghost").is_none());
    let avail: Vec<String> = m.available_peers().iter().map(|p| p.device_info.device_id.clone()).collect();
    assert_eq!(avail, vec!["b".to_string()]);
    m.remove_peer("b");
    assert_eq!(m.peer_count(), 1);
    assert!(m.available_peers().is_empty());
    assert!(PeerManager::should_distribute(100 * 1024 * 1024));
    assert!(!PeerManager::should_distribute(100 * 1024 * 1024 - 1));
}

#[test]
fn relay_candidates_fastest_first() {
    let mut m = PeerManager::new("me".to_string());
    m.register_peer(device("me", "10Gb", 1));
    m.register_peer(device("recv", "10Gb", 2));
    m.register_peer(device("slow", "100Mb", 3));
    m.register_peer(device("fast", "10Gb", 4));
    m.register_peer(device("mid", "1Gb", 5));
    let mut no_feature = device("plain", "10Gb", 6);
    no_feature.supported_features.retain(|f| f != "distributed_transfer");
    m.register_peer(no_feature);
    m.register_peer(device("busy", "10Gb", 7));
    m.update_peer_status("busy", PeerStatus::Transferring);
    let ids: Vec<String> = m.relay_candidates("recv").iter().map(|p| p.device_info.device_id.clone()).collect();
    assert_eq!(ids, vec!["fast".to_string(), "mid".to_string(), "slow".to_string()]);
}

#[test]
fn relay_candidates_capped() {
    let mut m = PeerManager::new("me".to_string());
    for i in 0..12u32 {
        let class = if i % 3 == 0 { "10Gb" } else { "1Gb" };
        m.register_peer(device(&format!("p{}", i), class, i));
    }
    let c = m.relay_candidates("nobody");
    assert_eq!(c.len(), MAX_RELAY_PEERS);
    // the four 10Gb peers come first
    for p in &c[..4] {
        assert_eq!(p.estimated_bandwidth, 1_250_000_000);
    }
    for p in &c[4..] {
        assert_eq!(p.estimated_bandwidth, 125_000_000);
    }
}

#[test]
fn ranges_tile_the_file() {
    assert_eq!(chunk_range(3, 6), vec![3, 4, 5]);
    let ids = vec!["a".to_string(), "b".to_string(), "c".to_string()];
    let a = assign_chunk_ranges(10, &ids, &vec![4, 3, 99]);
    assert_eq!(
        a,
        vec![
            ("a".to_string(), vec![0, 1, 2, 3]),
            ("b".to_string(), vec![4, 5, 6]),
            ("c".to_string(), vec![7, 8, 9]),
        ]
    );
    // a share larger than what is left stops at the end; later relays get nothing
    let b = assign_chunk_ranges(5, &ids, &vec![4, 9, 1]);
    assert_eq!(b, vec![("a".to_string(), vec![0, 1, 2, 3]), ("b".to_string(), vec![4])]);
    let all: Vec<u64> = b.iter().flat_map(|(_, c)| c.clone()).collect();
    assert_eq!(all, vec![0, 1, 2, 3, 4]);
    assert!(assign_chunk_ranges(5, &Vec::new(), &Vec::new()).is_empty());
    // a zero share leaves a relay out
    let c = assign_chunk_ranges(4, &ids, &vec![0, 2, 0]);
    assert_eq!(c, vec![("b".to_string(), vec![0, 1]), ("c".to_string(), vec![2, 3])]);
}

#[test]
fn plan_is_recorded_and_routed() {
    let mut m = PeerManager::new("me".to_string());
    m.register_peer(device("r1", "10Gb", 0x0a00_0001));
    m.register_peer(device("r2", "1Gb", 0x0a00_0002));
    let relays = m.relay_candidates("recv");
    let plan = m.create_distribution_plan("file-1", 6, &relays, &vec![3, 0]);
    assert_eq!(plan.file_id, "file-1");
    assert_eq!(plan.total_chunks, 6);
    assert_eq!(
        plan.assignments,
        vec![("r1".to_string(), vec![0, 1, 2]), ("r2".to_string(), vec![3, 4, 5])]
    );
    let empty = m.create_distribution_plan("file-2", 4, &Vec::new(), &Vec::new());
    assert!(empty.assignments.is_empty());

    let receiver = EndpointAddr { ip: IpAddress::V4(0x0a00_0063), port: 5000 };
    let router = ChunkRouter::new(Arc::new(m));
    let routes = router.create_routing_table(&plan, receiver);
    assert_eq!(routes.len(), 6);
    for (i, r) in routes.iter().enumerate() {
        assert_eq!(r.chunk_index, i as u64);
        assert_eq!(r.destination_addr, receiver);
        match &r.route_type {
            RouteType::Relay { relay_device_id, relay_addr } => {
                let expected = if i < 3 { "r1" } else { "r2" };
                assert_eq!(relay_device_id, expected);
                assert_eq!(r.target_addr, *relay_addr);
            }
            RouteType::Direct => panic!("chunk {} should be relayed", i),
        }
    }
    let direct = router.create_routing_table(&empty, receiver);
    assert!(direct.iter().all(|r| matches!(r.route_type, RouteType::Direct) && r.target_addr == receiver));
}

#[test]
fn unknown_relay_falls_back_to_direct() {
    let m = PeerManager::new("me".to_string());
    let router = ChunkRouter::new(Arc::new(m));
    let plan = DistributedPlan {
        file_id: "f".to_string(),
        total_chunks: 3,
        assignments: vec![("gone".to_string(), vec![1]), ("x".to_string(), vec![1, 2])],
    };
    let receiver = EndpointAddr { ip: IpAddress::V4(9), port: 1 };
    let routes = router.create_routing_table(&plan, receiver);
    assert_eq!(routes.len(), 3);
    assert!(routes.iter().all(|r| matches!(r.route_type, RouteType::Direct)));
}
