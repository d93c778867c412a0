//! The pipeline's sequencing, as a state machine over plain events: resolve
//! the registry's interface, resolve the price contract's address through
//! the registry, resolve that contract's interface, read the price and its
//! last-update block, read the current height, and compute the countdown.
//! The caller performs each stage's external call and hands the outcome back
//! as an event; every decision between calls is made — and verified — here.

use vstd::prelude::*;
use vstd::string::StringExecFns;
use crate::address::Address;
use crate::countdown::{countdown, spec_countdown, ArithmeticError, Countdown};
use crate::errors::QueryError;
use crate::interface::InterfaceDefinition;
use crate::registry::{resolve_address, spec_resolve_address};
use crate::resolver::ResolveFailure;

verus! {

/// Which stage of the pipeline failed, and why. Every failure aborts the
/// whole run; no partial output is produced past it.
pub enum Failure {
    /// Resolving the registry's own interface failed.
    RegistryInterface(ResolveFailure),
    /// The registry query for the price contract's address failed, or the
    /// name was not registered.
    PriceAddress(QueryError),
    /// Resolving the price contract's interface failed.
    PriceInterface(ResolveFailure),
    /// The price read failed.
    PriceRead(QueryError),
    /// The last-update-block read failed.
    PricesBlockRead(QueryError),
    /// The current-height read failed.
    HeightRead(QueryError),
    /// The countdown arithmetic found the feed overdue.
    Countdown(ArithmeticError),
}

/// Where the pipeline stands. Each stage carries what the next external
/// call needs.
pub enum Stage {
    /// Waiting for the registry contract's interface.
    ResolveRegistryInterface,
    /// Waiting for the registry's answer to the `getAddress` query.
    ResolvePriceAddress { registry_interface: InterfaceDefinition },
    /// Waiting for the price contract's interface.
    ResolvePriceInterface { price_address: Address },
    /// Waiting for the price value.
    ReadPrice { price_address: Address, price_interface: InterfaceDefinition },
    /// Waiting for the last-update block.
    ReadPricesBlock {
        price_address: Address,
        price_interface: InterfaceDefinition,
        price: u128,
    },
    /// Waiting for the current chain height.
    ReadHeight { price: u128, prices_block: u64 },
    /// The run is complete: the price and the computed countdown.
    Finished { price: u128, result: Countdown },
    /// The run aborted.
    Failed { failure: Failure },
}

/// The outcome of one external call, handed back as plain values. A `None`
/// in a read event means the ledger call itself failed.
pub enum Event {
    RegistryInterface(Result<InterfaceDefinition, ResolveFailure>),
    RegistryAnswer(Option<Address>),
    PriceInterface(Result<InterfaceDefinition, ResolveFailure>),
    PriceValue(Option<u128>),
    PricesBlockValue(Option<u64>),
    HeightValue(Option<u64>),
}

/// The fixed parameters of a run: the checkpoint interval and the seconds
/// one block takes.
pub struct Orchestrator {
    pub interval_blocks: u64,
    pub seconds_per_block: u64,
}

impl Stage {
    /// Every value a stage carries is well-formed.
    pub open spec fn wf(&self) -> bool {
        match *self {
            Stage::ResolvePriceAddress { registry_interface } => registry_interface.wf(),
            Stage::ResolvePriceInterface { price_address } => price_address.wf(),
            Stage::ReadPrice { price_address, price_interface } => price_address.wf()
                && price_interface.wf(),
            Stage::ReadPricesBlock { price_address, price_interface, .. } => price_address.wf()
                && price_interface.wf(),
            _ => true,
        }
    }
}

impl Event {
    /// Every value an event carries is well-formed.
    pub open spec fn wf(&self) -> bool {
        match *self {
            Event::RegistryInterface(r) => r matches Ok(d) ==> d.wf(),
            Event::RegistryAnswer(a) => a matches Some(addr) ==> addr.wf(),
            Event::PriceInterface(r) => r matches Ok(d) ==> d.wf(),
            _ => true,
        }
    }

    /// True where the event answers what the stage is waiting for.
    pub open spec fn answers(&self, stage: Stage) -> bool {
        match (stage, *self) {
            (Stage::ResolveRegistryInterface, Event::RegistryInterface(_)) => true,
            (Stage::ResolvePriceAddress { .. }, Event::RegistryAnswer(_)) => true,
            (Stage::ResolvePriceInterface { .. }, Event::PriceInterface(_)) => true,
            (Stage::ReadPrice { .. }, Event::PriceValue(_)) => true,
            (Stage::ReadPricesBlock { .. }, Event::PricesBlockValue(_)) => true,
            (Stage::ReadHeight { .. }, Event::HeightValue(_)) => true,
            _ => false,
        }
    }

    /// True where a reported chain height is no older than the last-update
    /// block the stage carries. A ledger answering otherwise is out of
    /// order; the caller must treat that as unrecoverable rather than hand
    /// the event in.
    pub open spec fn height_in_order(&self, stage: Stage) -> bool {
        match (stage, *self) {
            (
                Stage::ReadHeight { prices_block, .. },
                Event::HeightValue(Some(h)),
            ) => prices_block <= h,
            _ => true,
        }
    }
}

impl Orchestrator {
    /// The countdown arithmetic must fit the machine word.
    pub open spec fn wf(&self) -> bool {
        self.interval_blocks * self.seconds_per_block <= u64::MAX
    }

    /// The stage that follows `stage` on `event`.
    pub open spec fn spec_advance(&self, stage: Stage, event: Event) -> Stage {
        match (stage, event) {
            (Stage::ResolveRegistryInterface, Event::RegistryInterface(r)) => match r {
                Ok(d) => Stage::ResolvePriceAddress { registry_interface: d },
                Err(f) => Stage::Failed { failure: Failure::RegistryInterface(f) },
            },
            (Stage::ResolvePriceAddress { .. }, Event::RegistryAnswer(ans)) => match
            spec_resolve_address(ans) {
                Ok(a) => Stage::ResolvePriceInterface { price_address: a },
                Err(q) => Stage::Failed { failure: Failure::PriceAddress(q) },
            },
            (Stage::ResolvePriceInterface { price_address }, Event::PriceInterface(r)) => match r {
                Ok(d) => Stage::ReadPrice { price_address, price_interface: d },
                Err(f) => Stage::Failed { failure: Failure::PriceInterface(f) },
            },
            (Stage::ReadPrice { price_address, price_interface }, Event::PriceValue(v)) => match v {
                Some(p) => Stage::ReadPricesBlock { price_address, price_interface, price: p },
                None => Stage::Failed { failure: Failure::PriceRead(QueryError::RpcFailure) },
            },
            (Stage::ReadPricesBlock { price, .. }, Event::PricesBlockValue(v)) => match v {
                Some(b) => Stage::ReadHeight { price, prices_block: b },
                None => Stage::Failed { failure: Failure::PricesBlockRead(QueryError::RpcFailure) },
            },
            (Stage::ReadHeight { price, prices_block }, Event::HeightValue(v)) => match v {
                Some(h) => match spec_countdown(
                    h as int,
                    prices_block as int,
                    self.interval_blocks as int,
                    self.seconds_per_block as int,
                ) {
                    Ok(c) => Stage::Finished { price, result: c },
                    Err(e) => Stage::Failed { failure: Failure::Countdown(e) },
                },
                None => Stage::Failed { failure: Failure::HeightRead(QueryError::RpcFailure) },
            },
            _ => stage,
        }
    }

    /// Advances the pipeline by one stage on the outcome of one external
    /// call. Sequencing, the zero-address check, and the countdown
    /// arithmetic all happen here; the caller only performs the calls.
    pub fn advance(&self, stage: Stage, event: Event) -> (next: Stage)
        requires
            self.wf(),
            stage.wf(),
            event.wf(),
            event.answers(stage),
            event.height_in_order(stage),
        ensures
            next == self.spec_advance(stage, event),
            next.wf(),
    {
        match (stage, event) {
            (Stage::ResolveRegistryInterface, Event::RegistryInterface(r)) => match r {
                Ok(d) => Stage::ResolvePriceAddress { registry_interface: d },
                Err(f) => Stage::Failed { failure: Failure::RegistryInterface(f) },
            },
            (Stage::ResolvePriceAddress { .. }, Event::RegistryAnswer(ans)) => match
            resolve_address(ans) {
                Ok(a) => Stage::ResolvePriceInterface { price_address: a },
                Err(q) => Stage::Failed { failure: Failure::PriceAddress(q) },
            },
            (Stage::ResolvePriceInterface { price_address }, Event::PriceInterface(r)) => match r {
                Ok(d) => Stage::ReadPrice { price_address, price_interface: d },
                Err(f) => Stage::Failed { failure: Failure::PriceInterface(f) },
            },
            (Stage::ReadPrice { price_address, price_interface }, Event::PriceValue(v)) => match v {
                Some(p) => Stage::ReadPricesBlock { price_address, price_interface, price: p },
                None => Stage::Failed { failure: Failure::PriceRead(QueryError::RpcFailure) },
            },
            (Stage::ReadPricesBlock { price, .. }, Event::PricesBlockValue(v)) => match v {
                Some(b) => Stage::ReadHeight { price, prices_block: b },
                None => Stage::Failed { failure: Failure::PricesBlockRead(QueryError::RpcFailure) },
            },
            (Stage::ReadHeight { price, prices_block }, Event::HeightValue(v)) => match v {
                Some(h) => match countdown(
                    h,
                    prices_block,
                    self.interval_blocks,
                    self.seconds_per_block,
                ) {
                    Ok(c) => Stage::Finished { price, result: c },
                    Err(e) => Stage::Failed { failure: Failure::Countdown(e) },
                },
                None => Stage::Failed { failure: Failure::HeightRead(QueryError::RpcFailure) },
            },
            (s, _) => s,
        }
    }
}

/// The single-line diagnostic for a failure: the stage that failed, then
/// what went wrong. Never a raw low-level fault.
pub open spec fn spec_describe_failure(f: Failure) -> Seq<char> {
    spec_failure_stage(f) + ": "@ + spec_failure_reason(f)
}

/// The words naming the stage that failed.
pub open spec fn spec_failure_stage(f: Failure) -> Seq<char> {
    match f {
        Failure::RegistryInterface(_) => "registry interface resolution failed"@,
        Failure::PriceAddress(_) => "price contract address resolution failed"@,
        Failure::PriceInterface(_) => "price contract interface resolution failed"@,
        Failure::PriceRead(_) => "price read failed"@,
        Failure::PricesBlockRead(_) => "last-update block read failed"@,
        Failure::HeightRead(_) => "current height read failed"@,
        Failure::Countdown(_) => "countdown arithmetic failed"@,
    }
}

/// The words naming what went wrong inside the failed stage.
pub open spec fn spec_failure_reason(f: Failure) -> Seq<char> {
    match f {
        Failure::RegistryInterface(r) => spec_resolve_failure_reason(r),
        Failure::PriceInterface(r) => spec_resolve_failure_reason(r),
        Failure::PriceAddress(q) => spec_query_reason(q),
        Failure::PriceRead(q) => spec_query_reason(q),
        Failure::PricesBlockRead(q) => spec_query_reason(q),
        Failure::HeightRead(q) => spec_query_reason(q),
        Failure::Countdown(_) => "more blocks have elapsed than the checkpoint interval"@,
    }
}

/// The reason words for a failed interface resolution.
pub open spec fn spec_resolve_failure_reason(r: ResolveFailure) -> Seq<char> {
    match r {
        ResolveFailure::Cache(_) => "the cached record is corrupt"@,
        ResolveFailure::Lookup(crate::errors::ResolveError::NotFound) =>
            "the lookup service returned no item"@,
        ResolveFailure::Lookup(crate::errors::ResolveError::Malformed) =>
            "the returned interface text does not parse"@,
        ResolveFailure::Lookup(crate::errors::ResolveError::ServiceUnavailable) =>
            "the lookup service could not be reached"@,
    }
}

/// The reason words for a failed ledger query.
pub open spec fn spec_query_reason(q: QueryError) -> Seq<char> {
    match q {
        QueryError::Unresolved => "the registry holds no address under that name"@,
        QueryError::RpcFailure => "the ledger read service did not answer"@,
    }
}

/// Renders the single-line diagnostic for a failure.
pub fn describe_failure(f: &Failure) -> (r: String)
    ensures
        r@ == spec_describe_failure(*f),
{
    let mut line = String::from_str(
        match f {
            Failure::RegistryInterface(_) => "registry interface resolution failed",
            Failure::PriceAddress(_) => "price contract address resolution failed",
            Failure::PriceInterface(_) => "price contract interface resolution failed",
            Failure::PriceRead(_) => "price read failed",
            Failure::PricesBlockRead(_) => "last-update block read failed",
            Failure::HeightRead(_) => "current height read failed",
            Failure::Countdown(_) => "countdown arithmetic failed",
        },
    );
    line.append(": ");
    line.append(
        match f {
            Failure::RegistryInterface(r) => resolve_failure_reason(r),
            Failure::PriceInterface(r) => resolve_failure_reason(r),
            Failure::PriceAddress(q) => query_reason(q),
            Failure::PriceRead(q) => query_reason(q),
            Failure::PricesBlockRead(q) => query_reason(q),
            Failure::HeightRead(q) => query_reason(q),
            Failure::Countdown(_) => "more blocks have elapsed than the checkpoint interval",
        },
    );
    line
}

/// Selects the reason words for a failed interface resolution.
fn resolve_failure_reason(r: &ResolveFailure) -> (t: &'static str)
    ensures
        t@ == spec_resolve_failure_reason(*r),
{
    match r {
        ResolveFailure::Cache(_) => "the cached record is corrupt",
        ResolveFailure::Lookup(crate::errors::ResolveError::NotFound) =>
            "the lookup service returned no item",
        ResolveFailure::Lookup(crate::errors::ResolveError::Malformed) =>
            "the returned interface text does not parse",
        ResolveFailure::Lookup(crate::errors::ResolveError::ServiceUnavailable) =>
            "the lookup service could not be reached",
    }
}

/// Selects the reason words for a failed ledger query.
fn query_reason(q: &QueryError) -> (t: &'static str)
    ensures
        t@ == spec_query_reason(*q),
{
    match q {
        QueryError::Unresolved => "the registry holds no address under that name",
        QueryError::RpcFailure => "the ledger read service did not answer",
    }
}

} // verus!
