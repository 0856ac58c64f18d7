use staking_pool_manager::{
    create_pool, initialize_state, AccountId, CreatePool, Error, Pool, PoolCreated, Registry,
};

fn id(tag: u8) -> AccountId {
    AccountId::new([tag; 32])
}

fn blank_pool() -> Pool {
    Pool {
        id: 0,
        creator: id(0),
        asset: id(0),
        is_closed: false,
        is_frozen: false,
    }
}

#[test]
fn initialize_creates_fresh_registry() {
    let mut state: Option<Registry> = None;
    let r = initialize_state(&mut state);
    assert_eq!(r, Ok(()));
    assert_eq!(state, Some(Registry { next_pool_id: 0 }));
}

#[test]
fn initialize_twice_is_rejected() {
    let mut state: Option<Registry> = None;
    initialize_state(&mut state).unwrap();
    let r = initialize_state(&mut state);
    assert_eq!(r, Err(Error::StateAlreadyInitialized));
    assert_eq!(state, Some(Registry { next_pool_id: 0 }));
}

#[test]
fn create_pool_records_creator_asset_and_fresh_flags() {
    // initialize registry -> create_pool(creator = C, asset = X):
    // the new record has id 0, creator C, asset X, both flags off,
    // and the registry counter becomes 1.
    let mut state: Option<Registry> = None;
    initialize_state(&mut state).unwrap();
    let creator = id(11);
    let asset = id(22);
    let mut ctx = CreatePool {
        authority: creator,
        pool: blank_pool(),
        state: state.unwrap(),
    };
    let event = create_pool(&mut ctx, asset).unwrap();
    assert_eq!(ctx.pool.id, 0);
    assert_eq!(ctx.pool.creator, creator);
    assert_eq!(ctx.pool.asset, asset);
    assert!(!ctx.pool.is_frozen);
    assert!(!ctx.pool.is_closed);
    assert_eq!(ctx.state.next_pool_id, 1);
    assert_eq!(
        event,
        PoolCreated {
            id: 0,
            creator,
            asset
        }
    );
}

#[test]
fn pool_ids_are_issued_sequentially() {
    // Three creations from a fresh registry issue ids 0, 1, 2 and leave the
    // counter at 3, whoever creates the pools and whatever they accept.
    let mut state: Option<Registry> = None;
    initialize_state(&mut state).unwrap();
    let mut ctx = CreatePool {
        authority: id(1),
        pool: blank_pool(),
        state: state.unwrap(),
    };
    let mut ids = Vec::new();
    for tag in [5u8, 6, 7] {
        ctx.authority = id(tag);
        create_pool(&mut ctx, id(tag + 100)).unwrap();
        ids.push(ctx.pool.id);
    }
    assert_eq!(ids, vec![0, 1, 2]);
    assert_eq!(ctx.state.next_pool_id, 3);
}
