use plumise_agent::state::AgentStatus;
use plumise_agent::process::{
    completions_url, health_of_status, health_url, metrics_url, read_health, HealthStatus,
    ReadyWait, WaitStep,
};

#[test]
fn local_addresses() {
    assert_eq!(health_url(18920), "http://127.0.0.1:18920/health");
    assert_eq!(completions_url(8080), "http://127.0.0.1:8080/v1/chat/completions");
    assert_eq!(metrics_url(0), "http://127.0.0.1:0/metrics");
    assert_eq!(health_url(65535), "http://127.0.0.1:65535/health");
}

#[test]
fn health_is_read_from_status() {
    assert_eq!(read_health("{\"status\":\"ok\"}"), HealthStatus::Ready);
    assert_eq!(
        read_health("{\"status\":\"loading model\",\"progress\":0.42}"),
        HealthStatus::Loading
    );
    assert_eq!(read_health("{\"status\":\"error\"}"), HealthStatus::Unknown);
    assert_eq!(read_health("{\"status\":1}"), HealthStatus::Unknown);
    assert_eq!(read_health("{}"), HealthStatus::Unknown);
    assert_eq!(read_health("[\"ok\"]"), HealthStatus::Unknown);
    assert_eq!(read_health("ok"), HealthStatus::Unknown);
    assert_eq!(read_health(""), HealthStatus::Unknown);
}

#[test]
fn status_texts() {
    assert_eq!(health_of_status(Some("ok")), HealthStatus::Ready);
    assert_eq!(health_of_status(Some("OK")), HealthStatus::Unknown);
    assert_eq!(health_of_status(Some("loading model")), HealthStatus::Loading);
    assert_eq!(health_of_status(None), HealthStatus::Unknown);
}

#[test]
fn wait_ends_only_on_readiness_or_timeout() {
    let wait = ReadyWait::begin(1000, 300);
    assert_eq!(wait.next(1000, None), WaitStep::PollAgain);
    assert_eq!(wait.next(1100, Some(HealthStatus::Loading)), WaitStep::PollAgain);
    assert_eq!(wait.next(1300, Some(HealthStatus::Unknown)), WaitStep::PollAgain);
    assert_eq!(wait.next(1301, Some(HealthStatus::Loading)), WaitStep::TimedOut);
    assert_eq!(wait.next(1301, None), WaitStep::TimedOut);
    assert_eq!(wait.next(1002, Some(HealthStatus::Ready)), WaitStep::Ready);
    assert_eq!(wait.next(5000, Some(HealthStatus::Ready)), WaitStep::Ready);
    assert_eq!(wait.next(10, None), WaitStep::PollAgain);
    assert_eq!(
        wait.timeout_message(),
        "llama-server did not become ready within 300 seconds"
    );
}

#[test]
fn wait_is_given_up_when_the_agent_stopped_or_failed() {
    let wait = ReadyWait::begin(1000, 300);
    for status in [AgentStatus::Stopped, AgentStatus::Stopping, AgentStatus::Error] {
        assert_eq!(wait.next_while(1001, None, status), WaitStep::Abandoned);
        assert_eq!(wait.next_while(1001, Some(HealthStatus::Ready), status), WaitStep::Abandoned);
        assert_eq!(wait.next_while(5000, None, status), WaitStep::Abandoned);
    }
    assert_eq!(wait.next_while(1001, None, AgentStatus::Starting), WaitStep::PollAgain);
    assert_eq!(
        wait.next_while(1001, Some(HealthStatus::Ready), AgentStatus::Starting),
        WaitStep::Ready
    );
    assert_eq!(wait.next_while(1301, None, AgentStatus::Starting), WaitStep::TimedOut);
}
