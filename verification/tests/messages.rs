use futures::channel::mpsc;
use hbbft::crypto::{PublicKey, SecretKey, SecretKeySet};
use hbbft::dynamic_honey_badger::{Change, JoinPlan};
use hbbft::honey_badger::{EncryptionSchedule, Params};
use hbbft::sync_key_gen::{Ack, Part};
use hydrabadger::{
    key_gen, InAddr, InternalMessage, InternalMessageKind, Message, NetworkNodeInfo, NetworkState,
    OutAddr, SocketAddr, Transaction, Uid, WireMessage, WireMessageKind,
};
use std::collections::BTreeMap;

type Wire = WireMessage<Transaction, u64>;
type Internal = InternalMessage<Transaction, u64>;

fn addr(port: u16) -> SocketAddr {
    SocketAddr::V4 { octets: [10, 0, 0, 7], port }
}

fn public_key() -> PublicKey {
    SecretKey::random().public_key()
}

fn nodes(pk: PublicKey) -> Vec<NetworkNodeInfo<u64>> {
    vec![
        NetworkNodeInfo { nid: 1, in_addr: InAddr(addr(1)), pk },
        NetworkNodeInfo { nid: 2, in_addr: InAddr(addr(2)), pk },
    ]
}

fn ack() -> Ack {
    bincode::deserialize(&bincode::serialize(&(11u64, Vec::<u8>::new())).unwrap()).unwrap()
}

fn part() -> Part {
    let commitment = (0u64, vec![public_key()]);
    bincode::deserialize(&bincode::serialize(&(commitment, Vec::<u8>::new())).unwrap()).unwrap()
}

fn consensus_message() -> Message<u64> {
    let sig = SecretKey::random().sign("vote");
    let bytes = bincode::serialize(&(1u32, 5u64, 1u32, ack(), sig)).unwrap();
    bincode::deserialize(&bytes).unwrap()
}

fn join_plan() -> JoinPlan<u64> {
    let set = SecretKeySet::random(1, &mut rand::thread_rng()).public_keys();
    let keys: BTreeMap<u64, PublicKey> = BTreeMap::new();
    let bytes = bincode::serialize(&(42u64, 0u32, set, keys, Params::default())).unwrap();
    bincode::deserialize(&bytes).unwrap()
}

#[test]
fn hello_from_validator_holds_its_arguments() {
    let pk = public_key();
    let msg = Wire::hello_from_validator(1, InAddr(addr(3)), pk, NetworkState::Unknown(nodes(pk)));
    match msg.kind() {
        WireMessageKind::HelloFromValidator(1, in_addr, key, NetworkState::Unknown(known)) => {
            assert_eq!(*in_addr, InAddr(addr(3)));
            assert_eq!(*key, pk);
            assert_eq!(known.len(), 2);
            assert_eq!(known[1].nid, 2);
        }
        kind => panic!("{:?}", kind),
    }
}

#[test]
fn hello_request_change_add_holds_its_arguments() {
    let pk = public_key();
    let msg = Wire::hello_request_change_add(9, InAddr(addr(4)), pk);
    match msg.into_kind() {
        WireMessageKind::HelloRequestChangeAdd(9, in_addr, key) => {
            assert_eq!(in_addr, InAddr(addr(4)));
            assert_eq!(key, pk);
        }
        kind => panic!("{:?}", kind),
    }
}

#[test]
fn welcome_received_change_add_holds_its_arguments() {
    let pk = public_key();
    let msg = Wire::welcome_received_change_add(8, pk, NetworkState::Nothing);
    match msg.into_kind() {
        WireMessageKind::WelcomeReceivedChangeAdd(8, key, NetworkState::Nothing) => {
            assert_eq!(key, pk);
        }
        kind => panic!("{:?}", kind),
    }
}

#[test]
fn transaction_holds_its_arguments() {
    let msg = Wire::transaction(7, Transaction(vec![1, 2]));
    match msg.into_kind() {
        WireMessageKind::Transaction(7, txn) => assert_eq!(txn, Transaction(vec![1, 2])),
        kind => panic!("{:?}", kind),
    }
}

#[test]
fn message_holds_its_arguments() {
    let consensus = consensus_message();
    let text = format!("{:?}", consensus);
    match Wire::message(6, consensus).into_kind() {
        WireMessageKind::Message(6, msg) => assert_eq!(format!("{:?}", msg), text),
        kind => panic!("{:?}", kind),
    }
}

#[test]
fn key_gen_part_holds_a_part() {
    let part = part();
    let msg = Wire::key_gen_part(key_gen::InstanceId::BuiltIn, part.clone());
    match msg.into_kind() {
        WireMessageKind::KeyGen(key_gen::InstanceId::BuiltIn, msg) => match msg.into_kind() {
            key_gen::MessageKind::Part(held) => assert_eq!(held, part),
            kind => panic!("{:?}", kind),
        },
        kind => panic!("{:?}", kind),
    }
}

#[test]
fn key_gen_ack_holds_an_ack() {
    let id = key_gen::InstanceId::User(Uid::new());
    let ack = ack();
    match Wire::key_gen_ack(id, ack.clone()).into_kind() {
        WireMessageKind::KeyGen(held_id, msg) => {
            assert_eq!(held_id, id);
            match msg.kind() {
                key_gen::MessageKind::Ack(held) => assert_eq!(*held, ack),
                kind => panic!("{:?}", kind),
            }
        }
        kind => panic!("{:?}", kind),
    }
}

#[test]
fn key_gen_holds_its_arguments() {
    let ack = ack();
    let msg = key_gen::Message::ack(ack.clone());
    match Wire::key_gen(key_gen::InstanceId::BuiltIn, msg).into_kind() {
        WireMessageKind::KeyGen(key_gen::InstanceId::BuiltIn, msg) => {
            assert!(matches!(msg.kind(), key_gen::MessageKind::Ack(held) if *held == ack));
        }
        kind => panic!("{:?}", kind),
    }
}

#[test]
fn join_plan_holds_its_argument() {
    let jp = join_plan();
    assert_eq!(jp.next_epoch(), 42);
    match Wire::join_plan(jp).into_kind() {
        WireMessageKind::JoinPlan(held) => assert_eq!(held.next_epoch(), 42),
        kind => panic!("{:?}", kind),
    }
}

#[test]
fn wire_message_is_its_kind() {
    let msg: Wire = WireMessageKind::Bytes(bytes::Bytes::from(vec![1, 2, 3])).into();
    assert!(matches!(msg.kind(), WireMessageKind::Bytes(held) if held[..] == [1, 2, 3]));
    assert!(matches!(Wire::from(WireMessageKind::Goodbye).into_kind(), WireMessageKind::Goodbye));
    let msg = Wire::from(WireMessageKind::RequestNetworkState);
    assert!(matches!(Wire::from(msg.into_kind()).kind(), WireMessageKind::RequestNetworkState));
}

#[test]
fn clone_of_a_network_state_is_of_the_same_kind() {
    let pk = public_key();
    let set = SecretKeySet::random(1, &mut rand::thread_rng()).public_keys();
    let mut keys = BTreeMap::new();
    keys.insert(1u64, pk);
    match NetworkState::Active((nodes(pk), set.clone(), keys.clone())).clone() {
        NetworkState::Active((held, held_set, held_keys)) => {
            assert_eq!(held.len(), 2);
            assert_eq!(held[0].nid, 1);
            assert_eq!(held[0].in_addr, InAddr(addr(1)));
            assert_eq!(held[0].pk, pk);
            assert_eq!(held_set, set);
            assert_eq!(held_keys, keys);
        }
        state => panic!("{:?}", state),
    }
    match NetworkState::GeneratingKeys(nodes(pk), keys.clone()).clone() {
        NetworkState::GeneratingKeys(held, held_keys) => {
            assert_eq!(held[1].nid, 2);
            assert_eq!(held_keys, keys);
        }
        state => panic!("{:?}", state),
    }
    let state: NetworkState<u64> = NetworkState::AwaitingMorePeersForKeyGeneration(nodes(pk));
    assert!(matches!(
        state.clone(),
        NetworkState::AwaitingMorePeersForKeyGeneration(held) if held.len() == 2
    ));
    let state: NetworkState<u64> = NetworkState::Nothing;
    assert!(matches!(state.clone(), NetworkState::Nothing));
}

#[test]
fn network_state_is_debugged_with_its_name() {
    let pk = public_key();
    let set = SecretKeySet::random(1, &mut rand::thread_rng()).public_keys();
    let mut keys = BTreeMap::new();
    keys.insert(1u64, pk);
    assert_eq!(format!("{:?}", NetworkState::<u64>::Nothing), "None");
    assert_eq!(
        format!("{:?}", NetworkState::Unknown(nodes(pk))),
        format!("Unknown({:?})", nodes(pk))
    );
    assert_eq!(
        format!("{:?}", NetworkState::AwaitingMorePeersForKeyGeneration(nodes(pk))),
        format!("AwaitingMorePeersForKeyGeneration({:?})", nodes(pk))
    );
    assert_eq!(
        format!("{:?}", NetworkState::GeneratingKeys(nodes(pk), keys.clone())),
        format!("GeneratingKeys({:?}, {:?})", nodes(pk), keys)
    );
    let info = (nodes(pk), set, keys);
    let text = format!("Active({:?})", info);
    assert_eq!(format!("{:?}", NetworkState::Active(info)), text);
    let msg: WireMessageKind<u8, u64> = WireMessageKind::NetworkState(NetworkState::Nothing);
    assert_eq!(format!("{:?}", msg), "NetworkState(None)");
}

#[test]
fn internal_message_gives_back_its_parts() {
    let msg = Internal::new(Some(3), OutAddr(addr(5)), InternalMessageKind::PeerDisconnect);
    assert_eq!(msg.src_uid(), Some(&3));
    assert_eq!(*msg.src_addr(), OutAddr(addr(5)));
    assert!(matches!(msg.kind(), InternalMessageKind::PeerDisconnect));
    let (src_uid, src_addr, kind) = msg.into_parts();
    assert_eq!(src_uid, Some(3));
    assert_eq!(src_addr, OutAddr(addr(5)));
    assert!(matches!(kind, InternalMessageKind::PeerDisconnect));
}

#[test]
fn internal_message_without_uid_has_none() {
    let msg = Internal::new_without_uid(OutAddr(addr(5)), InternalMessageKind::PeerDisconnect);
    assert_eq!(msg.src_uid(), None);
    assert_eq!(*msg.src_addr(), OutAddr(addr(5)));
    assert!(matches!(msg.kind(), InternalMessageKind::PeerDisconnect));
}

#[test]
fn new_outgoing_connection_has_no_uid() {
    let msg = Internal::new_outgoing_connection(OutAddr(addr(6)));
    assert_eq!(msg.src_uid(), None);
    assert_eq!(*msg.src_addr(), OutAddr(addr(6)));
    assert!(matches!(msg.kind(), InternalMessageKind::NewOutgoingConnection));
}

#[test]
fn internal_wire_holds_the_message() {
    let msg = Internal::wire(None, OutAddr(addr(1)), Wire::from(WireMessageKind::Goodbye));
    assert_eq!(msg.src_uid(), None);
    match msg.kind() {
        InternalMessageKind::Wire(wire) => {
            assert!(matches!(wire.kind(), WireMessageKind::Goodbye));
        }
        kind => panic!("{:?}", kind),
    }
    let msg = Internal::wire(Some(4), OutAddr(addr(1)), Wire::from(WireMessageKind::Goodbye));
    assert_eq!(msg.src_uid(), Some(&4));
}

#[test]
fn hb_message_holds_the_message() {
    let consensus = consensus_message();
    let text = format!("{:?}", consensus);
    let (src_uid, src_addr, kind) =
        Internal::hb_message(2, OutAddr(addr(1)), consensus).into_parts();
    assert_eq!((src_uid, src_addr), (Some(2), OutAddr(addr(1))));
    match kind {
        InternalMessageKind::HbMessage(msg) => assert_eq!(format!("{:?}", msg), text),
        kind => panic!("{:?}", kind),
    }
}

#[test]
fn hb_contribution_holds_the_contribution() {
    let msg = Internal::hb_contribution(2, OutAddr(addr(1)), Transaction(vec![5]));
    let (src_uid, src_addr, kind) = msg.into_parts();
    assert_eq!((src_uid, src_addr), (Some(2), OutAddr(addr(1))));
    match kind {
        InternalMessageKind::HbContribution(txn) => assert_eq!(txn, Transaction(vec![5])),
        kind => panic!("{:?}", kind),
    }
}

#[test]
fn hb_vote_holds_the_change() {
    let change = Change::EncryptionSchedule(EncryptionSchedule::EveryNthEpoch(3));
    let msg = Internal::hb_vote(2, OutAddr(addr(1)), change.clone());
    let (src_uid, src_addr, kind) = msg.into_parts();
    assert_eq!((src_uid, src_addr), (Some(2), OutAddr(addr(1))));
    match kind {
        InternalMessageKind::HbChange(held) => assert_eq!(held, change),
        kind => panic!("{:?}", kind),
    }
}

#[test]
fn peer_disconnect_has_its_source() {
    let (src_uid, src_addr, kind) = Internal::peer_disconnect(2, OutAddr(addr(1))).into_parts();
    assert_eq!((src_uid, src_addr), (Some(2), OutAddr(addr(1))));
    assert!(matches!(kind, InternalMessageKind::PeerDisconnect));
}

#[test]
fn new_incoming_connection_holds_its_arguments() {
    let pk = public_key();
    for request_change_add in vec![false, true] {
        let msg = Internal::new_incoming_connection(
            2,
            OutAddr(addr(1)),
            InAddr(addr(2)),
            pk,
            request_change_add,
        );
        let (src_uid, src_addr, kind) = msg.into_parts();
        assert_eq!((src_uid, src_addr), (Some(2), OutAddr(addr(1))));
        match kind {
            InternalMessageKind::NewIncomingConnection(in_addr, key, request) => {
                assert_eq!(in_addr, InAddr(addr(2)));
                assert_eq!(key, pk);
                assert_eq!(request, request_change_add);
            }
            kind => panic!("{:?}", kind),
        }
    }
}

#[test]
fn new_key_gen_instance_holds_the_channel() {
    let (tx, mut rx) = mpsc::unbounded();
    let msg = Internal::new_key_gen_instance(2, OutAddr(addr(1)), tx);
    let (src_uid, src_addr, kind) = msg.clone().into_parts();
    assert_eq!((src_uid, src_addr), (Some(2), OutAddr(addr(1))));
    match kind {
        InternalMessageKind::NewKeyGenInstance(tx) => {
            tx.unbounded_send(key_gen::Message::ack(ack())).unwrap();
        }
        kind => panic!("{:?}", kind),
    }
    let received = rx.try_recv().unwrap();
    assert!(matches!(received.kind(), key_gen::MessageKind::Ack(held) if *held == ack()));
}
