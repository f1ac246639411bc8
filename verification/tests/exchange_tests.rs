use quanthelm::exchange::ExchangeError;

#[test]
fn exchange_error_messages() {
    assert_eq!(
        ExchangeError::Timeout { outcome_unknown: true }.message(),
        "exchange request timed out; outcome_unknown=true"
    );
    assert_eq!(
        ExchangeError::Timeout { outcome_unknown: false }.message(),
        "exchange request timed out; outcome_unknown=false"
    );
    assert_eq!(
        ExchangeError::Rejected { code: "-2019".to_owned(), message: "margin".to_owned() }.message(),
        "exchange rejected request: -2019: margin"
    );
    assert_eq!(
        ExchangeError::Transport("reset".to_owned()).message(),
        "exchange transport error: reset"
    );
    assert_eq!(
        ExchangeError::InvalidState("closed".to_owned()).message(),
        "invalid exchange state: closed"
    );
}
