use solana_sdk::pubkey::Pubkey;
use solana_trading_sdk::sharding::chunk_accounts;

fn pool(size: usize) -> Vec<Pubkey> {
    (0..size).map(|_| Pubkey::new_unique()).collect()
}

fn sizes(chunks: &[Vec<Pubkey>]) -> Vec<usize> {
    chunks.iter().map(|c| c.len()).collect()
}

#[test]
fn eight_accounts_for_four_runtimes_give_four_pairs() {
    let accounts = pool(8);
    let chunks = chunk_accounts(&accounts, 4);
    assert_eq!(chunks.len(), 4);
    for (i, chunk) in chunks.iter().enumerate() {
        assert_eq!(chunk.len(), 2);
        assert_eq!(chunk[0], accounts[2 * i]);
        assert_eq!(chunk[1], accounts[2 * i + 1]);
    }
    let joined: Vec<Pubkey> = chunks.into_iter().flatten().collect();
    assert_eq!(joined, accounts);
}

#[test]
fn chunks_cover_the_pool_once_and_in_order() {
    for size in 0..20usize {
        let accounts = pool(size);
        for threads in 0..25u64 {
            let chunks = chunk_accounts(&accounts, threads);
            let joined: Vec<Pubkey> = chunks.iter().flatten().copied().collect();
            assert_eq!(joined, accounts);
            let wanted = (threads as usize).min(size).max(1);
            assert_eq!(chunks.len(), wanted);
            let longest = (size + wanted - 1) / wanted;
            for chunk in &chunks {
                assert!(chunk.len() <= longest);
                assert!(chunk.len() >= size / wanted);
                assert!(chunk.len() <= size / wanted + 1);
                if size > 0 {
                    assert!(!chunk.is_empty());
                }
            }
        }
    }
}

#[test]
fn an_empty_pool_gives_one_empty_chunk() {
    assert_eq!(chunk_accounts(&[], 0), vec![Vec::<Pubkey>::new()]);
    assert_eq!(chunk_accounts(&[], 1), vec![Vec::<Pubkey>::new()]);
    assert_eq!(chunk_accounts(&[], 7), vec![Vec::<Pubkey>::new()]);
}

#[test]
fn zero_runtimes_count_as_one() {
    let accounts = pool(5);
    assert_eq!(chunk_accounts(&accounts, 0), vec![accounts.clone()]);
    assert_eq!(chunk_accounts(&accounts, 1), vec![accounts.clone()]);
}

#[test]
fn more_runtimes_than_accounts_give_one_account_each() {
    let accounts = pool(3);
    let chunks = chunk_accounts(&accounts, u64::MAX);
    assert_eq!(chunks, vec![vec![accounts[0]], vec![accounts[1]], vec![accounts[2]]]);
}

#[test]
fn left_over_accounts_go_to_the_chunks_in_front() {
    assert_eq!(sizes(&chunk_accounts(&pool(14), 4)), vec![4, 4, 3, 3]);
    assert_eq!(sizes(&chunk_accounts(&pool(8), 5)), vec![2, 2, 2, 1, 1]);
    assert_eq!(sizes(&chunk_accounts(&pool(4), 3)), vec![2, 1, 1]);
    assert_eq!(sizes(&chunk_accounts(&pool(5), 4)), vec![2, 1, 1, 1]);
    assert_eq!(sizes(&chunk_accounts(&pool(7), 7)), vec![1, 1, 1, 1, 1, 1, 1]);
}

#[test]
fn four_accounts_for_three_runtimes_give_three_chunks_in_order() {
    let accounts = pool(4);
    let chunks = chunk_accounts(&accounts, 3);
    assert_eq!(
        chunks,
        vec![vec![accounts[0], accounts[1]], vec![accounts[2]], vec![accounts[3]]]
    );
}
