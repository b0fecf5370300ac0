use metrics_lockfree::exporter::{Exporter, Reply, STATUS_MOVED, STATUS_OK};

#[test]
fn builder_serves_under_metrics() {
    let exporter = Exporter::builder("127.0.0.1:9186");
    assert_eq!(exporter.address(), "127.0.0.1:9186");
    assert_eq!(exporter.path(), "/metrics");
}

#[test]
fn metrics_path_gets_the_metrics() {
    let exporter = Exporter::builder("127.0.0.1:9186");
    let reply = exporter.reply("/metrics");
    assert!(matches!(reply, Reply::Metrics));
    assert_eq!(reply.status_code(), 200);
    assert_eq!(STATUS_OK, 200);
}

#[test]
fn other_paths_are_sent_to_the_metrics_path() {
    let exporter = Exporter::builder("127.0.0.1:9186");
    for url in ["/", "", "/metrics/", "/Metrics", "/metrics?x=1", "/favicon.ico"] {
        let reply = exporter.reply(url);
        assert_eq!(reply.status_code(), 301);
        match reply {
            Reply::Redirect { location, body } => {
                assert_eq!(location, "/metrics");
                assert_eq!(body, "try /metrics for metrics\n");
            }
            Reply::Metrics => panic!("no redirect for {url}"),
        }
    }
    assert_eq!(STATUS_MOVED, 301);
}
