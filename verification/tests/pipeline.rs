//! The orchestrator's state machine, driven through a whole run and through
//! each failure path.

use rpl_countdown::address::Address;
use rpl_countdown::errors::{QueryError, ResolveError};
use rpl_countdown::interface::InterfaceDefinition;
use rpl_countdown::orchestrator::{describe_failure, Event, Failure, Orchestrator, Stage};
use rpl_countdown::resolver::ResolveFailure;

const REGISTRY_INTERFACE: &str = "[{\"inputs\":[{\"internalType\":\"bytes32\",\"name\":\"_key\",\"type\":\"bytes32\"}],\"name\":\"getAddress\",\"outputs\":[{\"internalType\":\"address\",\"name\":\"\",\"type\":\"address\"}],\"stateMutability\":\"view\",\"type\":\"function\"}]";

const PRICE_INTERFACE: &str = "[{\"inputs\":[],\"name\":\"getRPLPrice\",\"outputs\":[{\"internalType\":\"uint256\",\"name\":\"\",\"type\":\"uint256\"}],\"stateMutability\":\"view\",\"type\":\"function\"}]";

fn orchestrator() -> Orchestrator {
    Orchestrator { interval_blocks: 5760, seconds_per_block: 12 }
}

fn definition(text: &str) -> InterfaceDefinition {
    InterfaceDefinition::from_text(text.to_string()).unwrap()
}

fn price_address() -> Address {
    Address::parse("0x617788cd388e7d30eb4ae69c27c794dbe8b4d8ca").unwrap()
}

#[test]
fn full_run_reaches_finished() {
    let orc = orchestrator();
    let s = Stage::ResolveRegistryInterface;

    let s = orc.advance(s, Event::RegistryInterface(Ok(definition(REGISTRY_INTERFACE))));
    match &s {
        Stage::ResolvePriceAddress { registry_interface } => {
            assert_eq!(registry_interface.text(), REGISTRY_INTERFACE)
        },
        _ => panic!("expected the address query stage"),
    }

    let s = orc.advance(s, Event::RegistryAnswer(Some(price_address())));
    match &s {
        Stage::ResolvePriceInterface { price_address: a } => {
            assert_eq!(a.bytes, price_address().bytes)
        },
        _ => panic!("expected the price interface stage"),
    }

    let s = orc.advance(s, Event::PriceInterface(Ok(definition(PRICE_INTERFACE))));
    assert!(matches!(s, Stage::ReadPrice { .. }));

    let s = orc.advance(s, Event::PriceValue(Some(23_211_400_000_000_000_000u128)));
    match &s {
        Stage::ReadPricesBlock { price, .. } => assert_eq!(*price, 23_211_400_000_000_000_000u128),
        _ => panic!("expected the prices-block stage"),
    }

    let s = orc.advance(s, Event::PricesBlockValue(Some(0)));
    assert!(matches!(s, Stage::ReadHeight { .. }));

    let s = orc.advance(s, Event::HeightValue(Some(1000)));
    match s {
        Stage::Finished { price, result } => {
            assert_eq!(price, 23_211_400_000_000_000_000u128);
            assert_eq!(result.blocks_remaining, 4760);
            assert_eq!(result.hours, 15);
            assert_eq!(result.minutes, 52);
        },
        _ => panic!("expected the finished stage"),
    }
}

#[test]
fn zero_registry_answer_fails_as_unresolved() {
    let orc = orchestrator();
    let s = Stage::ResolvePriceAddress { registry_interface: definition(REGISTRY_INTERFACE) };
    let zero = Address::parse("0x0000000000000000000000000000000000000000").unwrap();
    let s = orc.advance(s, Event::RegistryAnswer(Some(zero)));
    match s {
        Stage::Failed { failure: Failure::PriceAddress(q) } => {
            assert_eq!(q, QueryError::Unresolved)
        },
        _ => panic!("the zero address must never resolve"),
    }
}

#[test]
fn missing_registry_answer_fails_as_rpc_failure() {
    let orc = orchestrator();
    let s = Stage::ResolvePriceAddress { registry_interface: definition(REGISTRY_INTERFACE) };
    let s = orc.advance(s, Event::RegistryAnswer(None));
    match s {
        Stage::Failed { failure: Failure::PriceAddress(q) } => {
            assert_eq!(q, QueryError::RpcFailure)
        },
        _ => panic!("a failed query must abort the run"),
    }
}

#[test]
fn failed_registry_resolution_aborts() {
    let orc = orchestrator();
    let s = Stage::ResolveRegistryInterface;
    let s = orc.advance(
        s,
        Event::RegistryInterface(Err(ResolveFailure::Lookup(ResolveError::NotFound))),
    );
    match s {
        Stage::Failed { failure: Failure::RegistryInterface(f) } => {
            assert_eq!(f, ResolveFailure::Lookup(ResolveError::NotFound))
        },
        _ => panic!("a failed resolution must abort the run"),
    }
}

#[test]
fn overdue_feed_fails_in_arithmetic() {
    let orc = Orchestrator { interval_blocks: 60, seconds_per_block: 12 };
    let s = Stage::ReadHeight { price: 1, prices_block: 0 };
    let s = orc.advance(s, Event::HeightValue(Some(130)));
    assert!(matches!(
        s,
        Stage::Failed { failure: Failure::Countdown(_) }
    ));
}

#[test]
fn missing_price_fails_as_rpc_failure() {
    let orc = orchestrator();
    let s = Stage::ReadPrice {
        price_address: price_address(),
        price_interface: definition(PRICE_INTERFACE),
    };
    let s = orc.advance(s, Event::PriceValue(None));
    match s {
        Stage::Failed { failure: Failure::PriceRead(q) } => {
            assert_eq!(q, QueryError::RpcFailure)
        },
        _ => panic!("a failed price read must abort the run"),
    }
}

#[test]
fn missing_prices_block_fails_as_rpc_failure() {
    let orc = orchestrator();
    let s = Stage::ReadPricesBlock {
        price_address: price_address(),
        price_interface: definition(PRICE_INTERFACE),
        price: 1,
    };
    let s = orc.advance(s, Event::PricesBlockValue(None));
    match s {
        Stage::Failed { failure: Failure::PricesBlockRead(q) } => {
            assert_eq!(q, QueryError::RpcFailure)
        },
        _ => panic!("a failed block read must abort the run"),
    }
}

#[test]
fn missing_height_fails_as_rpc_failure() {
    let orc = orchestrator();
    let s = Stage::ReadHeight { price: 1, prices_block: 10 };
    let s = orc.advance(s, Event::HeightValue(None));
    match s {
        Stage::Failed { failure: Failure::HeightRead(q) } => {
            assert_eq!(q, QueryError::RpcFailure)
        },
        _ => panic!("a failed height read must abort the run"),
    }
}

#[test]
fn diagnostics_name_the_failed_stage() {
    assert_eq!(
        describe_failure(&Failure::PriceAddress(QueryError::Unresolved)),
        "price contract address resolution failed: the registry holds no address under that name"
    );
    assert_eq!(
        describe_failure(&Failure::RegistryInterface(ResolveFailure::Lookup(
            ResolveError::ServiceUnavailable
        ))),
        "registry interface resolution failed: the lookup service could not be reached"
    );
    assert_eq!(
        describe_failure(&Failure::Countdown(
            rpl_countdown::countdown::ArithmeticError::Underflow
        )),
        "countdown arithmetic failed: more blocks have elapsed than the checkpoint interval"
    );
    assert_eq!(
        describe_failure(&Failure::PriceRead(QueryError::RpcFailure)),
        "price read failed: the ledger read service did not answer"
    );
    assert_eq!(
        describe_failure(&Failure::PriceInterface(ResolveFailure::Cache(
            rpl_countdown::errors::CacheError
        ))),
        "price contract interface resolution failed: the cached record is corrupt"
    );
}
