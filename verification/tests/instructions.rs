use hello_world::wormhole::{emitter_signer_seeds, message_signer_seeds, u64_le_bytes, Finality};
use hello_world::{
    Config, ForeignEmitter, HelloWorldError, HelloWorldMessage, Initialize, InitializeBumps,
    MessageError, PostedMessage, ReceiveMessage, Received, RegisterEmitter, SendMessage,
    SendMessageBumps, WormholeAddresses, WormholeEmitter,
};

fn key(b: u8) -> [u8; 32] {
    [b; 32]
}

fn initialize_accounts(fee: u64) -> Initialize {
    Initialize {
        owner: key(1),
        config: Config::default(),
        wormhole_bridge: key(2),
        bridge_fee: fee,
        wormhole_fee_collector: key(3),
        wormhole_emitter: WormholeEmitter::default(),
        wormhole_sequence: key(4),
        program_id: key(5),
    }
}

#[test]
fn initialize_writes_config_and_plans_alive_post() {
    let mut accounts = initialize_accounts(0);
    let plan = accounts.initialize(&InitializeBumps { wormhole_emitter: 254, wormhole_message: 253 });
    assert_eq!(
        accounts.config,
        Config {
            owner: key(1),
            wormhole: WormholeAddresses { bridge: key(2), fee_collector: key(3), sequence: key(4) },
            batch_id: 0,
            finality: 0,
        }
    );
    assert_eq!(accounts.wormhole_emitter.bump, 254);
    assert!(plan.fee_transfer.is_none());
    assert_eq!(plan.post.batch_id, 0);
    assert_eq!(plan.post.finality, Finality::Confirmed);
    let mut payload = vec![0u8];
    payload.extend_from_slice(&key(5));
    assert_eq!(plan.post.payload, payload);
    assert_eq!(
        plan.post.message_seeds,
        vec![b"sent".to_vec(), vec![1, 0, 0, 0, 0, 0, 0, 0], vec![253]]
    );
    assert_eq!(plan.post.emitter_seeds, vec![b"emitter".to_vec(), vec![254]]);
}

#[test]
fn initialize_pays_fee_when_bridge_charges_one() {
    let mut accounts = initialize_accounts(100);
    let plan = accounts.initialize(&InitializeBumps { wormhole_emitter: 1, wormhole_message: 2 });
    let transfer = plan.fee_transfer.unwrap();
    assert_eq!(transfer.from, key(1));
    assert_eq!(transfer.to, key(3));
    assert_eq!(transfer.lamports, 100);
}

fn send_accounts(fee: u64, finality: u8) -> SendMessage {
    SendMessage {
        payer: key(7),
        config: Config {
            owner: key(1),
            wormhole: WormholeAddresses { bridge: key(2), fee_collector: key(3), sequence: key(4) },
            batch_id: 9,
            finality,
        },
        bridge_fee: fee,
        wormhole_fee_collector: key(3),
        next_sequence: 0x0102,
    }
}

#[test]
fn send_message_plans_hello_post() {
    let mut accounts = send_accounts(5, 1);
    let (fee_transfer, post) = accounts
        .send_message(&SendMessageBumps { wormhole_emitter: 10, wormhole_message: 11 }, b"hi".to_vec());
    let transfer = fee_transfer.unwrap();
    assert_eq!((transfer.from, transfer.to, transfer.lamports), (key(7), key(3), 5));
    let post = post.unwrap();
    assert_eq!(post.batch_id, 9);
    assert_eq!(post.finality, Finality::Finalized);
    assert_eq!(post.payload, vec![1, 0, 2, b'h', b'i']);
    assert_eq!(
        post.message_seeds,
        vec![b"sent".to_vec(), vec![2, 1, 0, 0, 0, 0, 0, 0], vec![11]]
    );
    assert_eq!(post.emitter_seeds, vec![b"emitter".to_vec(), vec![10]]);
}

#[test]
fn send_message_without_fee_plans_no_transfer() {
    let mut accounts = send_accounts(0, 0);
    let (fee_transfer, post) = accounts
        .send_message(&SendMessageBumps { wormhole_emitter: 10, wormhole_message: 11 }, vec![]);
    assert!(fee_transfer.is_none());
    let post = post.unwrap();
    assert_eq!(post.finality, Finality::Confirmed);
    assert_eq!(post.payload, vec![1, 0, 0]);
}

#[test]
fn send_message_refuses_too_long_message_after_the_fee() {
    let mut accounts = send_accounts(5, 0);
    let (fee_transfer, post) = accounts.send_message(
        &SendMessageBumps { wormhole_emitter: 10, wormhole_message: 11 },
        vec![0u8; 513],
    );
    let transfer = fee_transfer.unwrap();
    assert_eq!((transfer.from, transfer.to, transfer.lamports), (key(7), key(3), 5));
    assert_eq!(post.unwrap_err(), MessageError::MessageTooLong);
}

#[test]
fn send_message_refuses_too_long_message_whatever_the_finality() {
    let mut accounts = send_accounts(0, 7);
    let (fee_transfer, post) = accounts.send_message(
        &SendMessageBumps { wormhole_emitter: 10, wormhole_message: 11 },
        vec![0u8; 600],
    );
    assert!(fee_transfer.is_none());
    assert_eq!(post.unwrap_err(), MessageError::MessageTooLong);
}

fn registration() -> RegisterEmitter {
    RegisterEmitter { foreign_emitter: ForeignEmitter { chain: 0, address: [0; 32] } }
}

#[test]
fn register_emitter_saves_chain_and_address() {
    let mut accounts = registration();
    let mut address = [0u8; 32];
    address[31] = 1;
    assert_eq!(accounts.register_emitter(2, address), Ok(()));
    assert_eq!(accounts.foreign_emitter, ForeignEmitter { chain: 2, address });
    assert!(accounts.foreign_emitter.verify(&address));
    assert!(!accounts.foreign_emitter.verify(&key(1)));
}

#[test]
fn register_emitter_overwrites_earlier_emitter() {
    let mut accounts = registration();
    accounts.register_emitter(6, key(8)).unwrap();
    accounts.register_emitter(6, key(9)).unwrap();
    assert_eq!(accounts.foreign_emitter.address, key(9));
}

#[test]
fn register_emitter_refuses_chain_zero() {
    let mut accounts = registration();
    assert_eq!(accounts.register_emitter(0, key(8)), Err(HelloWorldError::InvalidForeignEmitter));
    assert_eq!(accounts.foreign_emitter, ForeignEmitter { chain: 0, address: [0; 32] });
}

#[test]
fn register_emitter_refuses_solana_chain() {
    let mut accounts = registration();
    assert_eq!(accounts.register_emitter(1, key(8)), Err(HelloWorldError::InvalidForeignEmitter));
}

#[test]
fn register_emitter_refuses_zero_address() {
    let mut accounts = RegisterEmitter { foreign_emitter: ForeignEmitter { chain: 4, address: key(3) } };
    assert_eq!(accounts.register_emitter(2, [0; 32]), Err(HelloWorldError::InvalidForeignEmitter));
    assert_eq!(accounts.foreign_emitter, ForeignEmitter { chain: 4, address: key(3) });
}

fn receiving(data: HelloWorldMessage) -> ReceiveMessage {
    ReceiveMessage { posted: PostedMessage { batch_id: 3, data }, received: Received::default() }
}

#[test]
fn receive_message_stores_hello() {
    let mut accounts = receiving(HelloWorldMessage::Hello { message: b"hello".to_vec() });
    assert_eq!(accounts.receive_message(key(6)), Ok(()));
    assert_eq!(accounts.received.batch_id, 3);
    assert_eq!(accounts.received.wormhole_message_hash, key(6));
    assert_eq!(accounts.received.message, b"hello".to_vec());
}

#[test]
fn receive_message_refuses_alive() {
    let mut accounts = receiving(HelloWorldMessage::Alive { program_id: key(5) });
    assert_eq!(accounts.receive_message(key(6)), Err(HelloWorldError::InvalidMessage));
    assert_eq!(accounts.received.batch_id, 0);
    assert!(accounts.received.message.is_empty());
}

#[test]
fn receive_message_refuses_message_too_long_to_store() {
    let mut accounts = receiving(HelloWorldMessage::Hello { message: vec![1u8; 1025] });
    assert_eq!(accounts.receive_message(key(6)), Err(HelloWorldError::InvalidMessage));
    let mut fits = receiving(HelloWorldMessage::Hello { message: vec![1u8; 1024] });
    assert_eq!(fits.receive_message(key(6)), Ok(()));
}

#[test]
fn sent_message_is_received_unchanged() {
    let mut sender = send_accounts(0, 0);
    let (_, post) = sender
        .send_message(&SendMessageBumps { wormhole_emitter: 1, wormhole_message: 2 }, b"across chains".to_vec());
    let post = post.unwrap();
    let mut buf: &[u8] = &post.payload;
    let data = HelloWorldMessage::deserialize(&mut buf).unwrap();
    let mut receiver = receiving(data);
    receiver.receive_message(key(6)).unwrap();
    assert_eq!(receiver.received.message, b"across chains".to_vec());
}

#[test]
fn le_bytes_and_seeds() {
    assert_eq!(u64_le_bytes(0x0807060504030201), vec![1, 2, 3, 4, 5, 6, 7, 8]);
    assert_eq!(u64_le_bytes(u64::MAX), vec![0xff; 8]);
    assert_eq!(message_signer_seeds(1, 7), vec![b"sent".to_vec(), vec![1, 0, 0, 0, 0, 0, 0, 0], vec![7]]);
    assert_eq!(emitter_signer_seeds(3), vec![b"emitter".to_vec(), vec![3]]);
}

#[test]
fn finality_codes() {
    assert_eq!(Finality::from_u8(0), Some(Finality::Confirmed));
    assert_eq!(Finality::from_u8(1), Some(Finality::Finalized));
    assert_eq!(Finality::from_u8(2), None);
    assert_eq!(Finality::Finalized.to_u8(), 1);
}
