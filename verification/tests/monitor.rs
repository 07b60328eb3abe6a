use pool_price::config::{AmmVariant, FeeTier, Network, PoolIdentity};
use pool_price::monitor::{
    Action, CycleError, Event, Monitor, Phase, StateReadError, StopReason,
};
use pool_price::normalize::PriceError;
use pool_price::pricing::{PoolState, Price, PricePair, ReserveState, SqrtPriceState};
use pool_price::token::{TokenRef, U160};

fn tokens() -> (TokenRef, TokenRef) {
    (TokenRef::new(U160::from_u128(1), 18), TokenRef::new(U160::from_u128(2), 18))
}

fn reserves(reserve0: u128, reserve1: u128) -> PoolState {
    PoolState::Reserves(ReserveState { reserve0, reserve1 })
}

fn root(lo: u128) -> PoolState {
    PoolState::SqrtPrice(SqrtPriceState {
        sqrt_price_x96: U160::from_u128(lo),
        tick: -5,
        observation_index: 1,
        observation_cardinality: 2,
        observation_cardinality_next: 3,
        fee_protocol: 0,
        unlocked: true,
    })
}

fn quotient_pair(base: u128, quote: u128) -> PricePair {
    PricePair {
        a_in_b: Price::Quotient { numerator: quote, denominator: base },
        b_in_a: Price::Quotient { numerator: base, denominator: quote },
    }
}

#[test]
fn a_new_monitor_is_idle() {
    let (a, b) = tokens();
    let m = Monitor::new(AmmVariant::V2, a, b);
    assert_eq!(m.phase, Phase::Idle);
    assert_eq!(m.variant, AmmVariant::V2);
    assert_eq!(m.token_a, a);
    assert_eq!(m.token_b, b);
    assert!(!m.is_terminated());
}

#[test]
fn starting_runs_one_cycle_before_any_trade() {
    let (a, b) = tokens();
    let mut m = Monitor::new(AmmVariant::V2, a, b);
    assert_eq!(m.step(Event::Started), Action::ReadState);
    assert_eq!(m.phase, Phase::Recomputing);
    assert_eq!(m.step(Event::StateRead(reserves(1, 2))), Action::Report(quotient_pair(1, 2)));
    assert_eq!(m.phase, Phase::Subscribed);
}

#[test]
fn every_trade_runs_one_cycle() {
    let (a, b) = tokens();
    let mut m = Monitor::new(AmmVariant::V2, a, b);
    let events = vec![
        Event::Started,
        Event::StateRead(reserves(1, 2)),
        Event::Notified,
        Event::StateRead(reserves(1, 3)),
        Event::Notified,
        Event::StateRead(reserves(4, 1)),
        Event::StreamClosed,
    ];
    let actions = m.run(&events);
    assert_eq!(
        actions,
        vec![
            Action::ReadState,
            Action::Report(quotient_pair(1, 2)),
            Action::ReadState,
            Action::Report(quotient_pair(1, 3)),
            Action::ReadState,
            Action::Report(quotient_pair(4, 1)),
            Action::Stop(StopReason::StreamClosed),
        ]
    );
    assert!(m.is_terminated());
}

#[test]
fn a_failed_read_skips_its_cycle_and_the_next_trade_starts_afresh() {
    let (a, b) = tokens();
    let mut m = Monitor::new(AmmVariant::V2, a, b);
    assert_eq!(m.step(Event::Started), Action::ReadState);
    assert_eq!(m.step(Event::StateRead(reserves(1, 2))), Action::Report(quotient_pair(1, 2)));
    assert_eq!(m.step(Event::Notified), Action::ReadState);
    assert_eq!(
        m.step(Event::ReadFailed(StateReadError::Transport)),
        Action::SkipCycle(CycleError::Read(StateReadError::Transport))
    );
    assert_eq!(m.phase, Phase::Subscribed);
    assert!(!m.is_terminated());
    assert_eq!(m.step(Event::Notified), Action::ReadState);
    assert_eq!(m.step(Event::StateRead(reserves(5, 10))), Action::Report(quotient_pair(5, 10)));
    assert_eq!(m.phase, Phase::Subscribed);
}

#[test]
fn each_kind_of_failed_read_is_passed_on() {
    let (a, b) = tokens();
    for e in [
        StateReadError::Transport,
        StateReadError::MalformedResponse,
        StateReadError::ContractRevert,
    ] {
        let mut m = Monitor::new(AmmVariant::V3, a, b);
        m.step(Event::Started);
        assert_eq!(m.step(Event::ReadFailed(e)), Action::SkipCycle(CycleError::Read(e)));
        assert_eq!(m.phase, Phase::Subscribed);
    }
}

#[test]
fn a_degenerate_reading_is_reported_as_undefined() {
    let (a, b) = tokens();
    let mut m = Monitor::new(AmmVariant::V2, a, b);
    m.step(Event::Started);
    assert_eq!(m.step(Event::StateRead(reserves(0, 2))), Action::ReportUndefined);
    assert_eq!(m.phase, Phase::Subscribed);
    let mut m = Monitor::new(AmmVariant::V3, a, b);
    m.step(Event::Started);
    assert_eq!(m.step(Event::StateRead(root(0))), Action::ReportUndefined);
    assert_eq!(m.phase, Phase::Subscribed);
}

#[test]
fn a_reading_of_the_other_shape_is_malformed() {
    let (a, b) = tokens();
    let mut m = Monitor::new(AmmVariant::V2, a, b);
    m.step(Event::Started);
    assert_eq!(
        m.step(Event::StateRead(root(1 << 96))),
        Action::SkipCycle(CycleError::Read(StateReadError::MalformedResponse))
    );
    let mut m = Monitor::new(AmmVariant::V3, a, b);
    m.step(Event::Started);
    assert_eq!(
        m.step(Event::StateRead(reserves(1, 1))),
        Action::SkipCycle(CycleError::Read(StateReadError::MalformedResponse))
    );
    assert_eq!(m.phase, Phase::Subscribed);
}

#[test]
fn a_reading_that_cannot_be_priced_skips_its_cycle() {
    let a = TokenRef::new(U160::from_u128(1), 19);
    let b = TokenRef::new(U160::from_u128(2), 18);
    let m = Monitor::new(AmmVariant::V2, a, b);
    assert_eq!(
        m.conclude(&reserves(1, 1)),
        Action::SkipCycle(CycleError::Price(PriceError::DecimalOverflow))
    );
    let a = TokenRef::new(U160::from_u128(1), 0);
    let m = Monitor::new(AmmVariant::V2, a, b);
    assert_eq!(
        m.conclude(&reserves(u128::MAX, 1)),
        Action::SkipCycle(CycleError::Price(PriceError::ReserveOverflow))
    );
}

#[test]
fn a_square_root_reading_is_priced_by_the_concentrated_model() {
    let (a, b) = tokens();
    let mut m = Monitor::new(AmmVariant::V3, a, b);
    m.step(Event::Started);
    let action = m.step(Event::StateRead(root(1 << 96)));
    assert_eq!(
        action,
        Action::Report(PricePair {
            a_in_b: Price::SqrtRatio {
                sqrt_price_x96: U160::from_u128(1 << 96),
                exponent: 0,
                inverted: false
            },
            b_in_a: Price::SqrtRatio {
                sqrt_price_x96: U160::from_u128(1 << 96),
                exponent: 0,
                inverted: true
            },
        })
    );
}

#[test]
fn the_end_of_the_stream_stops_the_monitor_for_good() {
    let (a, b) = tokens();
    let mut m = Monitor::new(AmmVariant::V2, a, b);
    m.step(Event::Started);
    m.step(Event::StateRead(reserves(1, 2)));
    assert_eq!(m.step(Event::StreamClosed), Action::Stop(StopReason::StreamClosed));
    assert!(m.is_terminated());
    for e in [
        Event::Started,
        Event::Notified,
        Event::StateRead(reserves(1, 2)),
        Event::ReadFailed(StateReadError::Transport),
        Event::StreamClosed,
        Event::ConnectionLost,
    ] {
        assert_eq!(m.step(e), Action::Ignore);
        assert_eq!(m.phase, Phase::Terminated);
    }
}

#[test]
fn a_lost_connection_stops_the_monitor_in_any_phase() {
    let (a, b) = tokens();
    let mut idle = Monitor::new(AmmVariant::V2, a, b);
    assert_eq!(idle.step(Event::ConnectionLost), Action::Stop(StopReason::ConnectionLost));
    assert!(idle.is_terminated());
    let mut busy = Monitor::new(AmmVariant::V2, a, b);
    busy.step(Event::Started);
    assert_eq!(busy.step(Event::ConnectionLost), Action::Stop(StopReason::ConnectionLost));
    assert!(busy.is_terminated());
}

#[test]
fn events_out_of_turn_are_ignored() {
    let (a, b) = tokens();
    let mut m = Monitor::new(AmmVariant::V2, a, b);
    assert_eq!(m.step(Event::Notified), Action::Ignore);
    assert_eq!(m.step(Event::StateRead(reserves(1, 1))), Action::Ignore);
    assert_eq!(m.phase, Phase::Idle);
    m.step(Event::Started);
    assert_eq!(m.step(Event::Notified), Action::Ignore);
    assert_eq!(m.step(Event::Started), Action::Ignore);
    assert_eq!(m.phase, Phase::Recomputing);
    m.step(Event::StateRead(reserves(1, 1)));
    assert_eq!(m.step(Event::StateRead(reserves(1, 1))), Action::Ignore);
    assert_eq!(m.step(Event::ReadFailed(StateReadError::Transport)), Action::Ignore);
    assert_eq!(m.phase, Phase::Subscribed);
}

#[test]
fn running_over_no_events_changes_nothing() {
    let (a, b) = tokens();
    let mut m = Monitor::new(AmmVariant::V3, a, b);
    let actions = m.run(&Vec::new());
    assert!(actions.is_empty());
    assert_eq!(m, Monitor::new(AmmVariant::V3, a, b));
}

#[test]
fn a_monitor_takes_its_model_from_the_pool() {
    let (a, b) = tokens();
    let identity = PoolIdentity {
        network: Network::Bnb,
        variant: AmmVariant::V3,
        pool_address: U160::new(9, 9),
        fee: Some(FeeTier::High),
    };
    assert_eq!(Monitor::for_pool(&identity, a, b), Monitor::new(AmmVariant::V3, a, b));
}
