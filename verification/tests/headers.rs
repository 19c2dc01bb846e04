use opentelemetry_sdk::error::TraceError;
use opentelemetry_sdk::propagation::{HeaderExtractor, HeaderInjector};
use opentelemetry_sdk::span::SpanData;
use opentelemetry_sdk::processors::{BatchSpanProcessor, SpanProcessor};
use opentelemetry_sdk::span_processor::{BatchConfig, SpanExporter};
use opentelemetry_sdk::response::{verdict, ResponseExt};
use opentelemetry_sdk::testing::new_test_export_span_data;

#[test]
fn http_headers_get() {
    let mut carrier = http::HeaderMap::new();
    HeaderInjector(&mut carrier).set("headerName", "value".to_string());

    assert_eq!(
        HeaderExtractor(&carrier).get("HEADERNAME"),
        Some("value"),
        "case insensitive extraction"
    )
}

#[test]
fn http_headers_keys() {
    let mut carrier = http::HeaderMap::new();
    HeaderInjector(&mut carrier).set("headerName1", "value1".to_string());
    HeaderInjector(&mut carrier).set("headerName2", "value2".to_string());

    let extractor = HeaderExtractor(&carrier);
    let got = extractor.keys();
    assert_eq!(got.len(), 2);
    assert!(got.contains(&"headername1"));
    assert!(got.contains(&"headername2"));
}

#[test]
fn invalid_header_names_and_values_are_not_set() {
    let mut carrier = http::HeaderMap::new();
    HeaderInjector(&mut carrier).set("bad name", "value".to_string());
    HeaderInjector(&mut carrier).set("", "value".to_string());
    HeaderInjector(&mut carrier).set("name", "bad\nvalue".to_string());
    HeaderInjector(&mut carrier).set("name", "bad\u{7f}value".to_string());
    assert!(carrier.is_empty());
    assert!(HeaderExtractor(&carrier).keys().is_empty());
    assert_eq!(HeaderExtractor(&carrier).get("name"), None);
    HeaderInjector(&mut carrier).set("name", "tab\tis fine".to_string());
    assert_eq!(HeaderExtractor(&carrier).get("name"), Some("tab\tis fine"));
}

#[test]
fn setting_a_header_again_replaces_its_value() {
    let mut carrier = http::HeaderMap::new();
    HeaderInjector(&mut carrier).set("traceparent", "one".to_string());
    HeaderInjector(&mut carrier).set("TraceParent", "two".to_string());
    assert_eq!(carrier.len(), 1);
    assert_eq!(HeaderExtractor(&carrier).get("traceparent"), Some("two"));
    assert_eq!(HeaderExtractor(&carrier).keys(), vec!["traceparent"]);
}

#[test]
fn values_that_are_not_visible_ascii_are_not_read_as_text() {
    let mut carrier = http::HeaderMap::new();
    HeaderInjector(&mut carrier).set("name", "caf\u{e9}".to_string());
    assert_eq!(carrier.len(), 1);
    assert_eq!(HeaderExtractor(&carrier).get("name"), None);
    assert_eq!(HeaderExtractor(&carrier).get("not a name"), None);
    assert_eq!(HeaderExtractor(&carrier).get("absent"), None);
    assert_eq!(HeaderExtractor(&carrier).keys(), vec!["name"]);
}

struct CountingExporter {
    batches: Vec<usize>,
}

impl SpanExporter for CountingExporter {
    fn export(&mut self, batch: Vec<SpanData>) -> Result<(), TraceError> {
        self.batches.push(batch.len());
        Ok(())
    }

    fn shutdown(&mut self) {}
}

#[test]
fn exporters_can_be_supplied_by_the_caller() {
    let config = BatchConfig::default().with_max_queue_size(10).with_max_export_batch_size(4);
    let mut processor = BatchSpanProcessor::new(CountingExporter { batches: Vec::new() }, config);
    for _ in 0..9 {
        assert!(processor.on_end(new_test_export_span_data()).is_ok());
    }
    assert!(processor.force_flush().is_ok());
    assert_eq!(processor.exporter_ref().batches, vec![4, 4, 1]);
}

fn response_with(status: u16) -> http::Response<Vec<u8>> {
    let mut response = http::Response::new(vec![1, 2, 3]);
    *response.status_mut() = http::StatusCode::from_u16(status).unwrap();
    response
}

#[test]
fn successful_responses_pass_unchanged() {
    for status in [200, 201, 204, 299] {
        let response = response_with(status).error_for_status().unwrap();
        assert_eq!(response.status().as_u16(), status);
        assert_eq!(response.body(), &vec![1, 2, 3]);
    }
}

#[test]
fn other_responses_become_errors() {
    for status in [100, 199, 300, 404, 500, 999] {
        assert!(response_with(status).error_for_status().is_err());
    }
    match response_with(404).error_for_status() {
        Err(TraceError::Other(message)) => {
            assert_eq!(message, "request failed with status 404 Not Found")
        }
        _ => panic!("a 404 was not reported"),
    }
    match response_with(299).error_for_status() {
        Ok(_) => {}
        Err(_) => panic!("a 299 was reported as a failure"),
    }
}

#[test]
fn verdict_goes_by_the_status_number() {
    assert!(verdict(200, "200 OK".to_string()).is_ok());
    assert!(verdict(299, String::new()).is_ok());
    assert!(verdict(199, String::new()).is_err());
    assert!(verdict(300, String::new()).is_err());
    assert!(verdict(0, String::new()).is_err());
    assert!(verdict(u16::MAX, String::new()).is_err());
    match verdict(503, "503 Service Unavailable".to_string()) {
        Err(TraceError::Other(message)) => {
            assert_eq!(message, "request failed with status 503 Service Unavailable")
        }
        _ => panic!("a 503 was not reported"),
    }
}
