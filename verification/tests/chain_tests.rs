use grin::chain::ChainStore;
use grin::chain::Commitment;
use grin::chain::Output;
use grin::chain::StoreError;
use grin::chain::Tip;

fn tip(height: u64) -> Tip {
    Tip { height, last_block_h: vec![1], prev_block_h: vec![2], total_difficulty: 7 }
}

#[test]
fn empty_store_has_no_head() {
    let store = ChainStore::new();
    assert_eq!(store.head().unwrap_err(), StoreError::NotFound);
}

#[test]
fn set_head_replaces_the_tip() {
    let mut store = ChainStore::new();
    store.set_head(tip(1));
    store.set_head(tip(2));
    assert_eq!(store.head().unwrap().height, 2);
}

#[test]
fn lookup_by_commitment_distinguishes_absence() {
    let mut store = ChainStore::new();
    store.add_output(Output { commit: Commitment::from_vec(vec![1, 2, 3]), proof: vec![] });
    let present = Commitment::from_vec(vec![1, 2, 3]);
    let absent = Commitment::from_vec(vec![9, 9]);
    assert_eq!(store.get_output_by_commit(&present).unwrap().commit.bytes, vec![1, 2, 3]);
    assert_eq!(store.get_output_by_commit(&absent).unwrap_err(), StoreError::NotFound);
}

#[test]
fn lookup_returns_the_first_matching_output() {
    let mut store = ChainStore::new();
    store.add_output(Output { commit: Commitment::from_vec(vec![5]), proof: vec![10] });
    store.add_output(Output { commit: Commitment::from_vec(vec![5]), proof: vec![20] });
    let c = Commitment::from_vec(vec![5]);
    assert_eq!(store.get_output_by_commit(&c).unwrap().proof, vec![10]);
}
