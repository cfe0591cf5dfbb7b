use blockchain_messenger::BlockchainMessenger;
use blockchain_messenger::StoreError;
use blockchain_messenger::MAX_MESSAGE_SIZE_BYTES;

#[test]
fn add_and_get_succ_1() {
    let mut contract = BlockchainMessenger::default();
    let value1 = vec![1, 1, 1];

    contract.add(value1.clone()).unwrap();

    assert_eq!(value1, contract.get(0).unwrap());
}

#[test]
fn add_and_get_succ_2() {
    let mut contract = BlockchainMessenger::default();
    let value1 = vec![1, 1, 1];
    let value2 = vec![2, 2, 2];

    contract.add(value1.clone()).unwrap();
    contract.add(value2.clone()).unwrap();

    assert_eq!(value1, contract.get(0).unwrap());
    assert_eq!(value2, contract.get(1).unwrap());
}

#[test]
fn add_and_get_multiple_1() {
    let mut contract = BlockchainMessenger::default();
    let value1 = vec![1, 1, 1];
    let value2 = vec![2, 2, 2];

    contract.add(value1.clone()).unwrap();
    contract.add(value2.clone()).unwrap();

    let values = contract.get_multiple(0, 2).unwrap();

    assert_eq!(value1, values[0]);
    assert_eq!(value2, values[1]);
}

#[test]
fn add_and_get_multiple_2() {
    let mut contract = BlockchainMessenger::default();
    let value1 = vec![1, 1, 1];
    let value2 = vec![2, 2, 2];
    let value3 = vec![3, 3, 3];

    contract.add(value1.clone()).unwrap();
    contract.add(value2.clone()).unwrap();
    contract.add(value3.clone()).unwrap();

    let values = contract.get_multiple(1, 2).unwrap();

    assert_eq!(value2, values[0]);
    assert_eq!(value3, values[1]);
}

#[test]
fn index_oob_1() {
    let contract = BlockchainMessenger::default();

    let no_value = contract.get(0);

    assert_eq!(no_value, Err(StoreError::IndexOutOfBounds));
}

#[test]
fn index_oob_2() {
    let mut contract = BlockchainMessenger::default();
    let value1 = vec![1, 1, 1];
    let value2 = vec![2, 2, 2];

    contract.add(value1.clone()).unwrap();
    contract.add(value2.clone()).unwrap();

    let no_value = contract.get(2);

    assert_eq!(no_value, Err(StoreError::IndexOutOfBounds));
}

#[test]
fn start_index_oob_1() {
    let contract = BlockchainMessenger::default();

    let no_value = contract.get_multiple(0, 1);

    assert_eq!(no_value, Err(StoreError::StartIndexOutOfBounds));
}

#[test]
fn start_index_oob_2() {
    let mut contract = BlockchainMessenger::default();
    let value1 = vec![1, 1, 1];
    let value2 = vec![2, 2, 2];

    contract.add(value1.clone()).unwrap();
    contract.add(value2.clone()).unwrap();

    let no_value = contract.get_multiple(2, 1);

    assert_eq!(no_value, Err(StoreError::StartIndexOutOfBounds));
}

#[test]
fn too_big_msg() {
    let mut contract = BlockchainMessenger::default();
    let value1 = vec![0; MAX_MESSAGE_SIZE_BYTES + 1];

    let rejected = contract.add(value1.clone());

    assert_eq!(rejected, Err(StoreError::MessageTooLarge));
}

#[test]
fn max_size_msg_accepted() {
    let mut contract = BlockchainMessenger::default();
    let value1 = vec![0; MAX_MESSAGE_SIZE_BYTES];

    contract.add(value1.clone()).unwrap();

    assert_eq!(value1, contract.get(0).unwrap());
}

#[test]
fn empty_msg_accepted() {
    let mut contract = BlockchainMessenger::default();
    let value1: Vec<u8> = vec![];

    contract.add(value1.clone()).unwrap();

    assert_eq!(value1, contract.get(0).unwrap());
}

#[test]
fn oversize_msg_leaves_store_unchanged() {
    let mut contract = BlockchainMessenger::default();
    let value1 = vec![7, 7];
    let oversize = vec![0; MAX_MESSAGE_SIZE_BYTES + 1];

    contract.add(value1.clone()).unwrap();
    let rejected = contract.add(oversize);

    assert_eq!(rejected, Err(StoreError::MessageTooLarge));
    assert_eq!(value1, contract.get(0).unwrap());
    assert_eq!(contract.get(1), Err(StoreError::IndexOutOfBounds));
}

#[test]
fn repeated_reads_equal() {
    let mut contract = BlockchainMessenger::default();
    let value1 = vec![1, 1, 1];
    let value2 = vec![2, 2, 2];

    contract.add(value1.clone()).unwrap();
    contract.add(value2.clone()).unwrap();

    assert_eq!(contract.get(1), contract.get(1));
    assert_eq!(contract.get_multiple(0, 2), contract.get_multiple(0, 2));
    assert_eq!(contract.get(5), contract.get(5));
}

#[test]
fn get_multiple_clamps_overshooting_count() {
    let mut contract = BlockchainMessenger::default();
    let value1 = vec![1, 1, 1];
    let value2 = vec![2, 2, 2];
    let value3 = vec![3, 3, 3];

    contract.add(value1.clone()).unwrap();
    contract.add(value2.clone()).unwrap();
    contract.add(value3.clone()).unwrap();

    let values = contract.get_multiple(1, 10).unwrap();

    assert_eq!(values.len(), 2);
    assert_eq!(values[0], contract.get(1).unwrap());
    assert_eq!(values[1], contract.get(2).unwrap());
}

#[test]
fn get_multiple_zero_count_in_bounds() {
    let mut contract = BlockchainMessenger::default();
    let value1 = vec![1, 1, 1];

    contract.add(value1.clone()).unwrap();

    let values = contract.get_multiple(0, 0).unwrap();

    assert!(values.is_empty());
}

#[test]
fn messages_round_trip() {
    let mut contract = BlockchainMessenger::default();
    let value1 = vec![1, 1, 1];
    let value2 = vec![2, 2, 2];

    contract.add(value1.clone()).unwrap();
    contract.add(value2.clone()).unwrap();

    let persisted = contract.into_messages();
    let restored = BlockchainMessenger::from_messages(persisted).unwrap();

    assert_eq!(value1, restored.get(0).unwrap());
    assert_eq!(value2, restored.get(1).unwrap());
    assert_eq!(restored.get(2), Err(StoreError::IndexOutOfBounds));
}

#[test]
fn from_messages_rejects_oversize() {
    let oversize = vec![0; MAX_MESSAGE_SIZE_BYTES + 1];
    let restored = BlockchainMessenger::from_messages(vec![vec![1], oversize]);

    assert!(matches!(restored, Err(StoreError::MessageTooLarge)));
}
