use ethlogger::errors::{display_err, Error};
use ethlogger::filter_stream_once::{FilterStreamOnce, PollEvent, PollStep};
use ethlogger::native_contract::{NativeContract, NativeContractBuilder, NativeEvent, NativeParam};
use ethlogger::token_checker::ParamType;
use ethlogger::topic_filter::build_filter;

const ADDRESS: &str = "0xf08c24beb893b56aaf55b60f665fbee1c97bc61c";

fn count_descriptor() -> Vec<NativeEvent> {
    vec![
        NativeEvent::new(
            "Count",
            vec![NativeParam::new("value", ParamType::Uint(256), false)],
        ),
        NativeEvent::new(
            "Transfer",
            vec![
                NativeParam::new("from", ParamType::Address, true),
                NativeParam::new("amount", ParamType::Uint(256), true),
                NativeParam::new("flag", ParamType::Bool, true),
            ],
        ),
        NativeEvent::new("Burn", vec![]),
    ]
}

fn ready_instance() -> (NativeContract, futures::sync::mpsc::Receiver<()>) {
    let mut instance =
        NativeContractBuilder::new("./contract/simple.abi", ADDRESS, "http://127.0.0.1:8545")
            .build()
            .unwrap();
    instance.init(count_descriptor()).unwrap();
    let (tx, rx) = futures::sync::mpsc::channel::<()>(1);
    instance.reactor_started(tx);
    (instance, rx)
}

#[test]
fn builder_accepts_valid_address() {
    let b = NativeContractBuilder::new("a.abi", ADDRESS, "http://localhost");
    let c = b.build().unwrap();
    assert_eq!(c.get_abi_path(), "a.abi");
    assert_eq!(c.get_host(), "http://localhost");
    assert_eq!(c.get_contract_address(), ADDRESS);
}

#[test]
fn builder_rejects_bad_address() {
    let b = NativeContractBuilder::new("a.abi", "0x1234", "h");
    match b.build() {
        Err(e) => assert_eq!(e, Error::TypeCoercion),
        Ok(_) => panic!("expected an address failure"),
    }
}

#[test]
fn builder_setters_overwrite() {
    let mut b = NativeContractBuilder::new("a", "b", "c");
    b.set_abi_path("p.abi");
    b.set_contract_address(ADDRESS);
    b.set_host("http://h");
    let c = b.build().unwrap();
    assert_eq!(c.get_abi_path(), "p.abi");
    assert_eq!(c.get_host(), "http://h");
}

#[test]
fn operations_fail_before_init() {
    let mut c = NativeContractBuilder::new("a", ADDRESS, "h").build().unwrap();
    assert_eq!(c.get_all_events().err(), Some(Error::NotInitialized));
    assert_eq!(c.get_event_by_id(0).err(), Some(Error::NotInitialized));
    assert_eq!(c.get_event_by_name("Count").err(), Some(Error::NotInitialized));
    assert_eq!(c.get_logging_events().err(), Some(Error::NotInitialized));
    assert_eq!(c.stop_all().err(), Some(Error::NotInitialized));
    assert_eq!(c.stop_event_by_name("Count").err(), Some(Error::NotInitialized));
    assert!(matches!(
        c.log_event_by_name("Count", Vec::new()),
        Err(Error::NotInitialized)
    ));
}

#[test]
fn init_is_idempotent() {
    let mut c = NativeContractBuilder::new("a", ADDRESS, "h").build().unwrap();
    c.init(count_descriptor()).unwrap();
    c.init(Vec::new()).unwrap();
    assert_eq!(c.get_all_events().unwrap().len(), 3);
}

#[test]
fn event_queries_resolve_names_and_ids() {
    let mut c = NativeContractBuilder::new("a", ADDRESS, "h").build().unwrap();
    c.init(count_descriptor()).unwrap();
    let all = c.get_all_events().unwrap();
    assert_eq!(all.len(), 3);
    assert_eq!(all[0].get_name(), "Count");
    assert_eq!(c.get_event_by_id(1).unwrap().get_name(), "Transfer");
    assert_eq!(c.get_event_by_id(3).err(), Some(Error::IndexOutOfRange));
    assert_eq!(c.get_event_by_name("Burn").unwrap().get_name(), "Burn");
    assert_eq!(c.get_event_by_name("Nope").err(), Some(Error::UnknownEvent));
    let params = c.get_event_by_id(1).unwrap().get_params();
    assert_eq!(params.len(), 3);
    assert_eq!(params[0].get_name(), "from");
    assert_eq!(params[0].get_kind(), "address");
    assert!(params[0].is_indexed());
    assert_eq!(params[1].get_kind(), "uint256");
}

#[test]
fn round_trip_event_names() {
    let mut c = NativeContractBuilder::new("a", ADDRESS, "h").build().unwrap();
    c.init(count_descriptor()).unwrap();
    for e in c.get_all_events().unwrap() {
        let name = e.get_name();
        let found = c.get_event_by_name(&name).unwrap();
        assert_eq!(found.get_name(), name);
    }
}

#[test]
fn start_twice_fails_with_already_logging() {
    let (mut c, _reactor_rx) = ready_instance();
    assert!(c.log_event_by_name("Count", Vec::new()).is_ok());
    assert!(matches!(
        c.log_event_by_name("Count", Vec::new()),
        Err(Error::AlreadyLogging)
    ));
}

#[test]
fn start_unknown_event_fails() {
    let (mut c, _reactor_rx) = ready_instance();
    assert!(matches!(
        c.log_event_by_name("Nope", Vec::new()),
        Err(Error::UnknownEvent)
    ));
}

#[test]
fn start_without_reactor_reports_startup_error() {
    let mut c = NativeContractBuilder::new("a", ADDRESS, "h").build().unwrap();
    c.init(count_descriptor()).unwrap();
    assert!(matches!(
        c.log_event_by_name("Count", Vec::new()),
        Err(Error::ReactorStartup)
    ));
}

#[test]
fn request_is_judged_before_the_reactor_is_consulted() {
    // with no worker running, a request that would not start anyway is
    // refused for its own reason, not for the missing worker
    let mut c = NativeContractBuilder::new("a", ADDRESS, "h").build().unwrap();
    c.init(count_descriptor()).unwrap();
    assert!(matches!(
        c.log_event_by_name("Nope", Vec::new()),
        Err(Error::UnknownEvent)
    ));
    assert!(matches!(
        c.log_event_by_name("Transfer", vec![String::from("zz")]),
        Err(Error::TypeCoercion)
    ));
}

#[test]
fn subscribe_with_no_values_builds_empty_filter() {
    let (mut c, _reactor_rx) = ready_instance();
    let start = c.log_event_by_name("Count", Vec::new()).unwrap();
    assert!(start.filter.topic0.is_none());
    assert!(start.filter.topic1.is_none());
    assert!(start.filter.topic2.is_none());
    let logging = c.get_logging_events().unwrap();
    assert_eq!(logging.len(), 1);
    assert_eq!(logging[0].get_name(), "Count");
}

#[test]
fn filter_truncates_after_first_failed_position() {
    // indexed parameters [address, uint, bool] with a failing second value:
    // slot zero is populated, the rest stay empty, and the valid third
    // value is never attempted
    let params = vec![
        NativeParam::new("from", ParamType::Address, true),
        NativeParam::new("amount", ParamType::Uint(256), true),
        NativeParam::new("flag", ParamType::Bool, true),
    ];
    let values = vec![
        String::from(ADDRESS),
        String::from("not-a-number"),
        String::from("true"),
    ];
    let f = build_filter(&params, &values).unwrap();
    assert!(f.topic0.is_some());
    assert!(f.topic1.is_none());
    assert!(f.topic2.is_none());
}

#[test]
fn filter_failure_at_position_zero_is_fatal() {
    let params = vec![NativeParam::new("from", ParamType::Address, true)];
    let values = vec![String::from("not-an-address")];
    assert!(matches!(
        build_filter(&params, &values),
        Err(Error::TypeCoercion)
    ));
}

#[test]
fn filter_skips_unindexed_parameters() {
    // the only indexed parameter is the second declared one
    let params = vec![
        NativeParam::new("value", ParamType::Uint(256), false),
        NativeParam::new("flag", ParamType::Bool, true),
    ];
    let values = vec![String::from("true")];
    let f = build_filter(&params, &values).unwrap();
    match f.topic0 {
        Some(ethlogger::token_checker::Token::Bool(b)) => assert!(b),
        _ => panic!("expected the boolean in slot zero"),
    }
    assert!(f.topic1.is_none());
}

#[test]
fn start_with_bad_first_value_fails_coercion() {
    let (mut c, _reactor_rx) = ready_instance();
    assert!(matches!(
        c.log_event_by_name("Transfer", vec![String::from("zz")]),
        Err(Error::TypeCoercion)
    ));
    // the failed start leaves no residual handle
    assert_eq!(c.get_logging_events().unwrap().len(), 0);
}

#[test]
fn stop_removes_subscription_immediately() {
    let (mut c, _reactor_rx) = ready_instance();
    let _s = c.log_event_by_name("Count", Vec::new()).unwrap();
    assert_eq!(c.get_logging_events().unwrap().len(), 1);
    c.stop_event_by_name("Count").unwrap();
    assert_eq!(c.get_logging_events().unwrap().len(), 0);
}

#[test]
fn stop_unsubscribed_fails_and_leaves_table_unchanged() {
    let (mut c, _reactor_rx) = ready_instance();
    let _s = c.log_event_by_name("Count", Vec::new()).unwrap();
    assert_eq!(c.stop_event_by_name("Burn").err(), Some(Error::NotSubscribed));
    let logging = c.get_logging_events().unwrap();
    assert_eq!(logging.len(), 1);
    assert_eq!(logging[0].get_name(), "Count");
}

#[test]
fn start_and_stop_by_id() {
    let (mut c, _reactor_rx) = ready_instance();
    let burn = c.log_event_by_id(2, Vec::new());
    assert!(burn.is_ok());
    let _s = burn.ok();
    assert_eq!(c.log_event_by_id(9, Vec::new()).err().is_some(), true);
    assert!(matches!(
        c.log_event_by_id(9, Vec::new()),
        Err(Error::IndexOutOfRange)
    ));
    c.stop_event_by_id(2).unwrap();
    assert_eq!(c.get_logging_events().unwrap().len(), 0);
    assert_eq!(c.stop_event_by_id(2).err(), Some(Error::NotSubscribed));
    assert_eq!(c.stop_event_by_id(9).err(), Some(Error::IndexOutOfRange));
}

#[test]
fn stop_all_clears_three_subscriptions() {
    let (mut c, _reactor_rx) = ready_instance();
    let _s1 = c.log_event_by_name("Count", Vec::new()).unwrap();
    let _s2 = c.log_event_by_name("Transfer", vec![String::from(ADDRESS)]).unwrap();
    let _s3 = c.log_event_by_name("Burn", Vec::new()).unwrap();
    assert_eq!(c.get_logging_events().unwrap().len(), 3);
    c.stop_all().unwrap();
    assert_eq!(c.get_logging_events().unwrap().len(), 0);
}

#[test]
fn resubscribe_after_stop_succeeds() {
    let (mut c, _reactor_rx) = ready_instance();
    let _s = c.log_event_by_name("Count", Vec::new()).unwrap();
    c.stop_event_by_name("Count").unwrap();
    assert!(c.log_event_by_name("Count", Vec::new()).is_ok());
}

#[test]
fn resubscribe_after_stop_all_succeeds() {
    let (mut c, _reactor_rx) = ready_instance();
    let _s = c.log_event_by_name("Count", Vec::new()).unwrap();
    c.stop_all().unwrap();
    assert!(c.log_event_by_name("Count", Vec::new()).is_ok());
}

#[test]
fn stream_delivers_batch_in_node_order() {
    let mut m: FilterStreamOnce<i32> = FilterStreamOnce::new();
    assert!(matches!(m.poll(PollEvent::TimerPending), PollStep::Pending));
    assert!(matches!(m.poll(PollEvent::TimerTick), PollStep::BeginFetch));
    assert!(matches!(m.poll(PollEvent::FetchPending), PollStep::Pending));
    match m.poll(PollEvent::FetchDone(vec![10, 20, 30])) {
        PollStep::Deliver(x) => assert_eq!(x, 10),
        _ => panic!("expected the first entry"),
    }
    match m.poll(PollEvent::Next) {
        PollStep::Deliver(x) => assert_eq!(x, 20),
        _ => panic!("expected the second entry"),
    }
    match m.poll(PollEvent::Next) {
        PollStep::Deliver(x) => assert_eq!(x, 30),
        _ => panic!("expected the third entry"),
    }
    assert!(matches!(m.poll(PollEvent::Next), PollStep::Idle));
    assert!(matches!(m.poll(PollEvent::TimerTick), PollStep::BeginFetch));
}

#[test]
fn stream_empty_batch_returns_to_waiting() {
    let mut m: FilterStreamOnce<i32> = FilterStreamOnce::new();
    m.poll(PollEvent::TimerTick);
    assert!(matches!(m.poll(PollEvent::FetchDone(Vec::new())), PollStep::Idle));
    assert!(matches!(m.poll(PollEvent::TimerTick), PollStep::BeginFetch));
}

#[test]
fn stream_cancellation_is_observed_at_cycle_top_only() {
    let mut m: FilterStreamOnce<i32> = FilterStreamOnce::new();
    // in the wait state the signal ends the stream at once
    assert!(matches!(m.poll(PollEvent::Cancel), PollStep::Ended));
    // a fetch already in flight is never interrupted
    m.poll(PollEvent::TimerTick);
    assert!(matches!(m.poll(PollEvent::Cancel), PollStep::Pending));
    // the fetched batch is still delivered in full
    match m.poll(PollEvent::FetchDone(vec![7, 8])) {
        PollStep::Deliver(x) => assert_eq!(x, 7),
        _ => panic!("expected the first fetched entry"),
    }
    assert!(matches!(m.poll(PollEvent::Cancel), PollStep::Pending));
    match m.poll(PollEvent::Next) {
        PollStep::Deliver(x) => assert_eq!(x, 8),
        _ => panic!("expected the second fetched entry"),
    }
    assert!(matches!(m.poll(PollEvent::Next), PollStep::Idle));
    // back at the top of the wait cycle the signal is honored
    assert!(matches!(m.poll(PollEvent::Cancel), PollStep::Ended));
}

#[test]
fn stream_transport_failure_ends_it() {
    let mut m: FilterStreamOnce<i32> = FilterStreamOnce::new();
    m.poll(PollEvent::TimerTick);
    assert!(matches!(m.poll(PollEvent::FetchFailed), PollStep::Failed));
}

#[test]
fn display_err_names_each_failure() {
    assert_eq!(display_err(&Error::NotInitialized), "not initialized");
    assert_eq!(display_err(&Error::UnknownEvent), "unknown event");
    assert_eq!(display_err(&Error::IndexOutOfRange), "event id out of range");
    assert_eq!(display_err(&Error::AlreadyLogging), "already logging");
    assert_eq!(display_err(&Error::NotSubscribed), "not subscribed");
    assert_eq!(display_err(&Error::StopAllFailed), "stop all failed");
    assert_eq!(display_err(&Error::ReactorStartup), "reactor startup failed");
    assert_eq!(display_err(&Error::TypeCoercion), "type coercion failed");
    assert_eq!(display_err(&Error::SendFailed), "cancellation send failed");
    assert_eq!(display_err(&Error::Transport), "transport failure");
    assert_eq!(display_err(&Error::FilterCreation), "filter creation failed");
}
