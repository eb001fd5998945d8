use archiver::segment::get_slot_from_signature;
use archiver::turn::{
    get_segment_config, judge_turn, parse_segment_config, parse_turn, pick_peer,
    poll_for_blockhash_and_slot, poll_for_segment, same_hash, ConfigError, PollError, PollStep,
    RpcReply, Turn, POLL_INTERVAL_SECS,
};

fn response(blockhash: &[u8; 32], slot: u64) -> RpcReply {
    RpcReply::Response(format!("[\"{}\",{}]", bs58::encode(blockhash).into_string(), slot))
}

#[test]
fn turn_poller_takes_only_a_fresh_turn() {
    let hash_a = [0xAAu8; 32];
    let hash_b = [0xBBu8; 32];
    let replies = [response(&hash_a, 500), response(&hash_a, 500), response(&hash_b, 500)];
    assert_eq!(poll_for_blockhash_and_slot(&replies[0], 100, &hash_a, false), PollStep::Retry);
    assert_eq!(poll_for_blockhash_and_slot(&replies[1], 100, &hash_a, false), PollStep::Retry);
    assert_eq!(
        poll_for_blockhash_and_slot(&replies[2], 100, &hash_a, false),
        PollStep::Found(Turn { blockhash: hash_b, slot: 500 })
    );
    assert_eq!(
        poll_for_segment(&replies[2], 100, &hash_a, false),
        PollStep::Found(Turn { blockhash: hash_b, slot: 500 })
    );
    assert_eq!(poll_for_segment(&replies[0], 100, &hash_a, false), PollStep::Retry);
}

#[test]
fn turn_poller_waits_for_a_whole_segment() {
    let previous = [0u8; 32];
    let hash = [5u8; 32];
    assert_eq!(
        poll_for_blockhash_and_slot(&response(&hash, 99), 100, &previous, false),
        PollStep::Retry
    );
    assert_eq!(
        poll_for_blockhash_and_slot(&response(&hash, 100), 100, &previous, false),
        PollStep::Found(Turn { blockhash: hash, slot: 100 })
    );
    assert_eq!(poll_for_segment(&response(&hash, 99), 100, &previous, false), PollStep::Retry);
    let found = judge_turn(Turn { blockhash: hash, slot: 1000 }, 100, &previous, false);
    assert_eq!(found, PollStep::Found(Turn { blockhash: hash, slot: 1000 }));
    assert!(get_slot_from_signature(&[9u8; 64], 1000, 100) < 1000);
}

#[test]
fn turn_poller_honours_the_exit_flag() {
    let hash = [5u8; 32];
    assert_eq!(
        poll_for_blockhash_and_slot(&RpcReply::NoPeers, 100, &hash, false),
        PollStep::Retry
    );
    assert_eq!(
        poll_for_blockhash_and_slot(&RpcReply::NoPeers, 100, &hash, true),
        PollStep::Failed(PollError::ExitSignalled)
    );
    assert_eq!(
        poll_for_blockhash_and_slot(&response(&hash, 500), 100, &hash, true),
        PollStep::Failed(PollError::ExitSignalled)
    );
    assert_eq!(
        poll_for_blockhash_and_slot(&response(&hash, 50), 100, &[0u8; 32], true),
        PollStep::Failed(PollError::ExitSignalled)
    );
    // a fresh turn is taken even when the flag is set
    assert_eq!(
        poll_for_blockhash_and_slot(&response(&hash, 500), 100, &[0u8; 32], true),
        PollStep::Found(Turn { blockhash: hash, slot: 500 })
    );
    assert_eq!(POLL_INTERVAL_SECS, 5);
}

#[test]
fn turn_poller_fails_on_bad_answers() {
    let previous = [0u8; 32];
    assert_eq!(
        poll_for_blockhash_and_slot(&RpcReply::Failed, 100, &previous, false),
        PollStep::Failed(PollError::Rpc)
    );
    for text in ["", "{}", "[\"abc\"]", "[1, 2]", "[\"abc\", -1]", "[\"abc\", 1, 2]"] {
        assert_eq!(
            poll_for_blockhash_and_slot(
                &RpcReply::Response(text.to_string()),
                100,
                &previous,
                false
            ),
            PollStep::Failed(PollError::BadResponse)
        );
    }
    for text in ["[\"0OIl\", 500]", "[\"11\", 500]", "[\"\", 500]"] {
        assert_eq!(
            poll_for_blockhash_and_slot(
                &RpcReply::Response(text.to_string()),
                100,
                &previous,
                false
            ),
            PollStep::Failed(PollError::BadBlockhash)
        );
    }
}

#[test]
fn parse_turn_reads_blockhash_and_slot() {
    let hash: [u8; 32] = core::array::from_fn(|i| i as u8 + 1);
    let text = format!(" [ \"{}\" , 18446744073709551615 ] ", bs58::encode(hash).into_string());
    assert_eq!(parse_turn(&text), Ok(Turn { blockhash: hash, slot: u64::MAX }));
    assert_eq!(parse_turn("[\"x\", 18446744073709551616]"), Err(PollError::BadResponse));
    assert_eq!(parse_turn("nonsense"), Err(PollError::BadResponse));
    assert_eq!(parse_turn("[\"I\", 5]"), Err(PollError::BadBlockhash));
}

#[test]
fn poll_error_messages() {
    assert_eq!(PollError::Rpc.message(), "rpc error");
    assert_eq!(PollError::BadResponse.message(), "Couldn't parse response");
    assert_eq!(PollError::BadBlockhash.message(), "Blockhash parse failure");
    assert_eq!(PollError::ExitSignalled.message(), "exit signalled...");
}

#[test]
fn pick_peer_picks_among_the_peers() {
    assert_eq!(pick_peer(0), None);
    assert_eq!(pick_peer(1), Some(0));
    let mut seen = [false; 4];
    for _ in 0..400 {
        let index = pick_peer(4).unwrap();
        assert!(index < 4);
        seen[index] = true;
    }
    assert_eq!(seen, [true; 4]);
}

#[test]
fn same_hash_compares_all_bytes() {
    let a = [7u8; 32];
    let mut b = a;
    assert!(same_hash(&a, &b));
    b[31] = 8;
    assert!(!same_hash(&a, &b));
    b = a;
    b[0] = 0;
    assert!(!same_hash(&a, &b));
}

#[test]
fn segment_config_is_a_number_of_slots() {
    assert_eq!(get_segment_config(&RpcReply::Response("1024".to_string())), Ok(1024));
    assert_eq!(get_segment_config(&RpcReply::Response(" 0 ".to_string())), Ok(0));
    assert_eq!(get_segment_config(&RpcReply::NoPeers), Err(ConfigError::NoPeers));
    assert_eq!(get_segment_config(&RpcReply::Failed), Err(ConfigError::Rpc));
    for text in ["", "-1", "1.5", "\"12\"", "[12]", "18446744073709551616", "12 13"] {
        assert_eq!(
            get_segment_config(&RpcReply::Response(text.to_string())),
            Err(ConfigError::BadResponse)
        );
    }
    assert_eq!(parse_segment_config("18446744073709551615"), Ok(u64::MAX));
    assert_eq!(ConfigError::NoPeers.message(), "No RPC peers...");
    assert_eq!(ConfigError::Rpc.message(), "rpc error");
}
