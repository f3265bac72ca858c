use block_metrics::block::BlockHash;
use block_metrics::config::ConnectionConfig;
use block_metrics::connector::{
    classify, Failure, Request, NODE_INVALID_ADDRESS_OR_KEY, NODE_INVALID_PARAMETER,
    NODE_MISC_ERROR,
};
use block_metrics::error::{RpcError, RpcErrorKind};

fn config(timeout_secs: u64) -> ConnectionConfig {
    ConnectionConfig::from_settings(
        Some("http://127.0.0.1:8332".to_string()),
        Some("alice".to_string()),
        Some("secret".to_string()),
    )
    .unwrap()
    .with_timeout_secs(timeout_secs)
}

fn requests() -> [Request; 4] {
    [
        Request::BlockCount,
        Request::BlockHash { height: 7 },
        Request::Block { hash: BlockHash { bytes: [7; 32] } },
        Request::UtxoSetSummary { timeout_secs: 480 },
    ]
}

fn kind_of(request: Request, failure: Failure) -> RpcErrorKind {
    let error = classify(&request, failure, "detail".to_string());
    assert_eq!(error.detail, Some("detail".to_string()));
    error.kind
}

#[test]
fn utxo_set_summary_runs_for_eight_minutes() {
    assert_eq!(Request::utxo_set_summary(), Request::UtxoSetSummary { timeout_secs: 480 });
    for default in [0u64, 1, 15, 480, 10_000] {
        assert_eq!(Request::utxo_set_summary().timeout_secs(&config(default)), 480);
    }
}

#[test]
fn utxo_set_summary_keeps_its_own_deadline() {
    for own in [0u64, 30, 480, 86_400] {
        for default in [1u64, 15, 100_000] {
            let request = Request::UtxoSetSummary { timeout_secs: own };
            assert_eq!(request.timeout_secs(&config(default)), own);
        }
    }
}

#[test]
fn other_calls_run_for_the_default_timeout() {
    for default in [0u64, 1, 15, 600] {
        for request in &requests()[..3] {
            assert_eq!(request.timeout_secs(&config(default)), default);
        }
    }
}

#[test]
fn node_codes() {
    assert_eq!(NODE_INVALID_PARAMETER, -8);
    assert_eq!(NODE_INVALID_ADDRESS_OR_KEY, -5);
    assert_eq!(NODE_MISC_ERROR, -1);
}

#[test]
fn height_out_of_range_is_not_found() {
    let request = Request::BlockHash { height: 900_000_000 };
    assert_eq!(kind_of(request, Failure::Node { code: -8 }), RpcErrorKind::NotFound);
    assert_eq!(kind_of(request, Failure::Node { code: -5 }), RpcErrorKind::Rejected);
    assert_eq!(kind_of(request, Failure::Node { code: -1 }), RpcErrorKind::Rejected);
    assert_eq!(kind_of(request, Failure::Node { code: -28 }), RpcErrorKind::Rejected);
}

#[test]
fn unknown_or_pruned_block_is_not_found() {
    let request = Request::Block { hash: BlockHash { bytes: [1; 32] } };
    assert_eq!(kind_of(request, Failure::Node { code: -5 }), RpcErrorKind::NotFound);
    assert_eq!(kind_of(request, Failure::Node { code: -1 }), RpcErrorKind::NotFound);
    assert_eq!(kind_of(request, Failure::Node { code: -8 }), RpcErrorKind::Rejected);
    assert_eq!(kind_of(request, Failure::Node { code: 0 }), RpcErrorKind::Rejected);
}

#[test]
fn node_errors_of_other_calls_are_rejections() {
    for code in [-32601, -28, -8, -5, -1, 0, 5] {
        assert_eq!(kind_of(Request::BlockCount, Failure::Node { code }), RpcErrorKind::Rejected);
        assert_eq!(
            kind_of(Request::utxo_set_summary(), Failure::Node { code }),
            RpcErrorKind::Rejected
        );
    }
}

#[test]
fn transport_failures_are_classed_alike_for_every_call() {
    for request in requests() {
        assert_eq!(kind_of(request, Failure::Http { status: 401 }), RpcErrorKind::Auth);
        assert_eq!(kind_of(request, Failure::Http { status: 403 }), RpcErrorKind::Auth);
        assert_eq!(kind_of(request, Failure::Http { status: 404 }), RpcErrorKind::Rejected);
        assert_eq!(kind_of(request, Failure::Http { status: 500 }), RpcErrorKind::Rejected);
        assert_eq!(kind_of(request, Failure::TimedOut), RpcErrorKind::Timeout);
        assert_eq!(kind_of(request, Failure::Disconnected), RpcErrorKind::Network);
        assert_eq!(kind_of(request, Failure::Undecodable), RpcErrorKind::Malformed);
    }
}

#[test]
fn classify_keeps_the_detail() {
    assert_eq!(
        classify(
            &Request::BlockHash { height: 3 },
            Failure::Node { code: -8 },
            "Block height out of range".to_string()
        ),
        RpcError {
            kind: RpcErrorKind::NotFound,
            detail: Some("Block height out of range".to_string())
        }
    );
}
