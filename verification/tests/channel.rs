use deadqueue::unlimited::Queue;
use stdout_channel::{MockStdout, StdoutChannel, StdoutMessage};

#[test]
fn test_default_mockstdout() {
    let mut mock = MockStdout::default();
    mock.push("HEY".to_string());
    assert_eq!(mock.len(), 1);
    assert_eq!(mock.get(0).as_str(), "HEY");
}

#[test]
fn test_default() {
    let mut chan = StdoutChannel::default();
    chan.send("stdout: Hey There".to_string());
    chan.send("What's happening".to_string());
    chan.send_err("stderr: How it goes".to_string());
    assert!(chan.close().is_ok());
}

#[test]
fn test_stdout_task() {
    let mut chan = StdoutChannel::new();
    chan.send("stdout: Hey There".to_string());
    chan.send("What's happening".to_string());
    chan.send_err("stderr: How it goes".to_string());
    assert!(chan.close().is_ok());
}

#[test]
fn test_mock_stdout() {
    let stdout = MockStdout::new();
    let stderr = MockStdout::new();
    let mut chan = StdoutChannel::with_mock_stdout(stdout, stderr);
    chan.send("stdout: Hey There".to_string());
    chan.send("What's happening".to_string());
    chan.send_err("stderr: How it goes".to_string());
    assert!(chan.close().is_ok());
    let stdout = chan.mock_stdout().unwrap();
    assert_eq!(stdout.len(), 2);
    assert_eq!(stdout.get(0).as_str(), "stdout: Hey There");
    assert_eq!(stdout.get(1).as_str(), "What's happening");
    let stderr = chan.mock_stderr().unwrap();
    assert_eq!(stderr.len(), 1);
    assert_eq!(stderr.get(0).as_str(), "stderr: How it goes");
}

#[test]
fn test_fifo_order_many() {
    let mut chan = StdoutChannel::with_mock_stdout(MockStdout::new(), MockStdout::new());
    for i in 0..100 {
        chan.send(format!("line {}", i));
    }
    assert!(chan.close().is_ok());
    let stdout = chan.mock_stdout().unwrap();
    assert_eq!(stdout.len(), 100);
    for i in 0..100 {
        assert_eq!(stdout.get(i).as_str(), format!("line {}", i));
    }
}

#[test]
fn test_stream_independence() {
    let mut chan = StdoutChannel::with_mock_stdout(MockStdout::new(), MockStdout::new());
    chan.send("a".to_string());
    chan.send_err("b".to_string());
    chan.send("c".to_string());
    chan.send_err("d".to_string());
    assert!(chan.close().is_ok());
    let stdout = chan.mock_stdout().unwrap();
    assert_eq!(stdout.len(), 2);
    assert_eq!(stdout.get(0).as_str(), "a");
    assert_eq!(stdout.get(1).as_str(), "c");
    let stderr = chan.mock_stderr().unwrap();
    assert_eq!(stderr.len(), 2);
    assert_eq!(stderr.get(0).as_str(), "b");
    assert_eq!(stderr.get(1).as_str(), "d");
}

#[test]
fn test_close_idempotent() {
    let mut chan = StdoutChannel::with_mock_stdout(MockStdout::new(), MockStdout::new());
    chan.send("once".to_string());
    assert!(chan.close().is_ok());
    assert!(chan.close().is_ok());
    let stdout = chan.mock_stdout().unwrap();
    assert_eq!(stdout.len(), 1);
    assert_eq!(stdout.get(0).as_str(), "once");
}

#[test]
fn test_close_idempotent_real_sinks() {
    let mut chan = StdoutChannel::new();
    chan.send("real line".to_string());
    assert!(chan.close().is_ok());
    assert!(chan.close().is_ok());
}

#[test]
fn test_close_empty() {
    let mut chan = StdoutChannel::with_mock_stdout(MockStdout::new(), MockStdout::new());
    assert!(chan.close().is_ok());
    assert_eq!(chan.mock_stdout().unwrap().len(), 0);
    assert_eq!(chan.mock_stderr().unwrap().len(), 0);
}

#[test]
fn test_send_after_close_is_not_delivered() {
    let mut chan = StdoutChannel::with_mock_stdout(MockStdout::new(), MockStdout::new());
    chan.send("before".to_string());
    assert!(chan.close().is_ok());
    chan.send("after".to_string());
    assert!(chan.close().is_ok());
    let stdout = chan.mock_stdout().unwrap();
    assert_eq!(stdout.len(), 1);
    assert_eq!(stdout.get(0).as_str(), "before");
}

#[test]
fn test_process_mock_stops_at_sentinel() {
    let mut queue: Queue<StdoutMessage> = Queue::new();
    queue.push(StdoutMessage::Mesg("a".to_string()));
    queue.push(StdoutMessage::Mesg("b".to_string()));
    queue.push(StdoutMessage::Close);
    queue.push(StdoutMessage::Mesg("after the sentinel".to_string()));
    let mut mock = MockStdout::new();
    assert!(StdoutChannel::process_mock(&mut queue, &mut mock).is_ok());
    assert_eq!(mock.len(), 2);
    assert_eq!(mock.get(0).as_str(), "a");
    assert_eq!(mock.get(1).as_str(), "b");
    assert_eq!(queue.len(), 1);
}

#[test]
fn test_mock_accessors_absent_for_real_sinks() {
    let chan = StdoutChannel::new();
    assert!(chan.mock_stdout().is_none());
    assert!(chan.mock_stderr().is_none());
}
