use varro::client::Varro;
use varro::rollup::{L2BlockRef, OutputResponse, SyncStatus};
use varro::time::TimeSpan;

fn output(root: Vec<u8>) -> OutputResponse {
    OutputResponse {
        version: vec![0u8; 32],
        output_root: root,
        block_ref: L2BlockRef { number: 1 },
        sync_status: SyncStatus { finalized_l2: 1, safe_l2: 1 },
    }
}

fn client() -> Varro<(), (), (), ()> {
    Varro::new((), (), (), false, [0u8; 20], [0u8; 32], TimeSpan::from_secs(5), None, None)
}

#[test]
fn block_number_is_finalized_head_unless_allowed() {
    let s = SyncStatus { finalized_l2: 10, safe_l2: 20 };
    assert_eq!(Varro::get_block_number(false, SyncStatus { ..s }), 10);
    assert_eq!(Varro::get_block_number(true, s), 20);
}

#[test]
fn proposal_is_submitted_once() {
    let mut v = client();
    assert!(v.submit_proposal(&output(vec![1, 2, 3])));
    assert!(!v.submit_proposal(&output(vec![1, 2, 3])));
    assert!(v.submit_proposal(&output(vec![1, 2, 4])));
    assert!(v.is_submitted(&vec![1, 2, 3]));
    assert!(v.is_submitted(&vec![1, 2, 4]));
    assert!(!v.is_submitted(&vec![1, 2]));
}

#[test]
fn roots_differing_in_length_are_distinct() {
    let mut v = client();
    assert!(v.submit_proposal(&output(vec![])));
    assert!(v.submit_proposal(&output(vec![0])));
    assert!(!v.submit_proposal(&output(vec![])));
}

#[test]
fn new_client_holds_its_parts() {
    let v: Varro<u8, u8, u8, u8> = Varro::new(1, 2, 3, true, [4u8; 20], [5u8; 32], TimeSpan::from_secs(6), Some(7), Some(TimeSpan::from_secs(8)));
    assert_eq!((*v.l1_client(), *v.rollup_node(), *v.output_oracle()), (1, 2, 3));
    assert!(v.allow_non_finalized());
    assert_eq!(v.proposer(), [4u8; 20]);
    assert_eq!(v.output_private_key(), [5u8; 32]);
    assert_eq!(v.polling_interval().secs(), 6);
    assert_eq!(v.tx_backoff().map(|t| t.secs()), Some(8));
    assert!(!v.is_submitted(&vec![]));
}
