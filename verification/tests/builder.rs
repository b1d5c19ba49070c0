use varro::builder::VarroBuilder;
use varro::client::Varro;
use varro::errors::VarroBuilderError;
use varro::time::TimeSpan;

fn complete() -> VarroBuilder<u8, u16, u32, u64> {
    let mut b = VarroBuilder::new();
    b.with_l1_client(1u8)
        .with_rollup_node(2u16)
        .with_output_oracle(3u32)
        .with_proposer([7u8; 20])
        .with_output_private_key([9u8; 32])
        .with_polling_interval(TimeSpan::from_secs(5));
    b
}

#[test]
fn new_builder_has_no_parts() {
    let b = VarroBuilder::<u8, u8, u8, u8>::new();
    assert!(b.l1_client.is_none());
    assert!(b.rollup_node.is_none());
    assert!(b.output_oracle.is_none());
    assert!(b.allow_non_finalized.is_none());
    assert!(b.proposer.is_none());
    assert!(b.output_private_key.is_none());
    assert!(b.polling_interval.is_none());
    assert!(b.metrics.is_none());
    assert!(b.tx_backoff.is_none());
    let d = VarroBuilder::<u8, u8, u8, u8>::default();
    assert!(d.l1_client.is_none() && d.metrics.is_none());
}

#[test]
fn build_without_anything_lacks_l1_client() {
    let mut b = VarroBuilder::<u8, u8, u8, u8>::new();
    assert_eq!(b.build().err(), Some(VarroBuilderError::MissingL1Client));
}

#[test]
fn build_reports_first_missing_part_in_order() {
    let cases: Vec<(usize, VarroBuilderError)> = vec![
        (0, VarroBuilderError::MissingL1Client),
        (1, VarroBuilderError::MissingRollupNode),
        (2, VarroBuilderError::MissingOutputOracle),
        (3, VarroBuilderError::MissingProposer),
        (4, VarroBuilderError::MissingOutputPrivateKey),
        (5, VarroBuilderError::MissingPollingInterval),
    ];
    for (missing, expected) in cases {
        let mut b = complete();
        match missing {
            0 => b.l1_client = None,
            1 => b.rollup_node = None,
            2 => b.output_oracle = None,
            3 => b.proposer = None,
            4 => b.output_private_key = None,
            _ => b.polling_interval = None,
        }
        assert_eq!(b.build().err(), Some(expected));
    }
}

#[test]
fn failed_build_takes_parts_up_to_the_missing_one() {
    let mut b = complete();
    b.output_oracle = None;
    b.with_metrics(4u64);
    assert_eq!(b.build().err(), Some(VarroBuilderError::MissingOutputOracle));
    assert!(b.l1_client.is_none());
    assert!(b.rollup_node.is_none());
    assert_eq!(b.proposer, Some([7u8; 20]));
    assert_eq!(b.output_private_key, Some([9u8; 32]));
    assert_eq!(b.polling_interval.map(|t| t.secs()), Some(5));
    assert_eq!(b.metrics, Some(4));
}

#[test]
fn build_gives_the_parts_and_defaults_to_finalized_data() {
    let mut b = complete();
    let v = b.build().ok().unwrap();
    assert_eq!(*v.l1_client(), 1u8);
    assert_eq!(*v.rollup_node(), 2u16);
    assert_eq!(*v.output_oracle(), 3u32);
    assert!(!v.allow_non_finalized());
    assert_eq!(v.proposer(), [7u8; 20]);
    assert_eq!(v.output_private_key(), [9u8; 32]);
    assert_eq!(v.polling_interval().secs(), 5);
    assert!(v.tx_backoff().is_none());
    assert!(b.l1_client.is_none() && b.polling_interval.is_none() && b.metrics.is_none());
}

#[test]
fn build_keeps_allow_non_finalized_and_metrics() {
    let mut b = complete();
    b.with_allow_non_finalized(true).with_metrics(11u64);
    let mut v = b.build().ok().unwrap();
    assert!(v.allow_non_finalized());
    assert_eq!(b.allow_non_finalized, Some(true));
    assert_eq!(v.take_metrics(), Some(11));
    assert_eq!(v.take_metrics(), None);
}

#[test]
fn setters_overwrite() {
    let mut b = VarroBuilder::<u8, u8, u8, u8>::new();
    b.with_polling_interval(TimeSpan::from_secs(1)).with_polling_interval(TimeSpan::from_secs(3));
    assert_eq!(b.polling_interval.map(|t| t.secs()), Some(3));
}

#[test]
fn build_needs_no_backoff_but_keeps_one() {
    let mut b = complete();
    b.with_tx_backoff(TimeSpan::from_parts(1, 500).unwrap());
    let v = b.build().ok().unwrap();
    let t = v.tx_backoff().unwrap();
    assert_eq!((t.secs(), t.subsec_nanos()), (1, 500));
    assert!(b.tx_backoff.is_some());
}

#[test]
fn try_from_builder_requires_backoff_last() {
    assert_eq!(Varro::try_from_builder(complete()).err(), Some(VarroBuilderError::MissingTxBackoff));
    let mut b = complete();
    b.proposer = None;
    assert_eq!(Varro::try_from_builder(b).err(), Some(VarroBuilderError::MissingProposer));
    let mut c = complete();
    c.with_tx_backoff(TimeSpan::from_secs(2)).with_allow_non_finalized(true);
    let v = Varro::try_from_builder(c).ok().unwrap();
    assert_eq!(v.tx_backoff().map(|t| t.secs()), Some(2));
    assert!(v.allow_non_finalized());
    assert_eq!(*v.output_oracle(), 3u32);
}
