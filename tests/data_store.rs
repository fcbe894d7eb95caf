use reqtui::request::Request;
use reqtui::store::{DataStore, Response};

#[test]
fn should_add_and_point_to_current_request_corretly() {
    let mut data_store = DataStore::init(vec![]);
    assert_eq!(data_store.get_request().name, Request::default().name);
    assert_eq!(data_store.get_requests().len(), 1);

    let mut req2 = Request::default();
    req2.name = String::from("Req2");
    data_store.add_request(req2);

    let mut req3 = Request::default();
    req3.name = String::from("Req3");
    data_store.add_request(req3);

    assert_eq!(data_store.get_requests().len(), 3);
    assert_eq!(data_store.request_ind(), 2);
    assert_eq!(data_store.get_request().name, "Req3".to_string());
}

#[test]
fn should_jump_and_goto_to_requests() {
    let mut req0 = Request::default();
    req0.set_name("Req0");

    let mut req1 = Request::default();
    req1.set_name("Req1");

    let mut req2 = Request::default();
    req2.set_name("Req2");

    let mut data_store = DataStore::init(vec![req0, req1, req2]);

    assert_eq!(data_store.request_ind(), 0);
    assert_eq!(data_store.get_request().name, "Req0");

    data_store.goto_request(2);
    assert_eq!(data_store.request_ind(), 2);
    assert_eq!(data_store.get_request().name, "Req2");

    data_store.goto_request(1);
    assert_eq!(data_store.request_ind(), 1);
    assert_eq!(data_store.get_request().name, "Req1");

    data_store.goto_next_request();
    assert_eq!(data_store.request_ind(), 2);
    assert_eq!(data_store.get_request().name, "Req2");

    data_store.goto_prev_request();
    assert_eq!(data_store.request_ind(), 1);
    assert_eq!(data_store.get_request().name, "Req1");
}

#[test]
fn should_update_and_get_current_request() {
    let mut req = Request::default();
    let mut data_store = DataStore::init(vec![req.clone()]);

    req.set_name("New name 1");
    assert_eq!(data_store.get_request().name, Request::default().name);

    data_store.update_request(req);
    assert_eq!(data_store.get_request().name, "New name 1".to_string());

    let mut req2 = Request::default();
    req2.set_name("New name 2");
    data_store.add_request(req2.clone());
    assert_eq!(data_store.get_request().name, "New name 2".to_string());

    req2.set_name("New name 2 after alter");

    assert_eq!(data_store.get_request().name, "New name 2".to_string());
    data_store.update_request(req2);
    assert_eq!(data_store.get_request().name, "New name 2 after alter".to_string());

    data_store.goto_request(0);
    assert_eq!(data_store.get_request().name, "New name 1".to_string());
}

#[test]
fn data_store_wraps_at_both_ends() {
    let mut a = Request::default();
    a.set_name("A");
    let mut b = Request::default();
    b.set_name("B");
    let mut store = DataStore::init(vec![a, b]);
    store.goto_prev_request();
    assert_eq!(store.request_ind(), 1);
    assert_eq!(store.get_request().name, "B");
    store.goto_next_request();
    assert_eq!(store.request_ind(), 0);
    assert_eq!(store.get_request().name, "A");
}

#[test]
fn data_store_keeps_last_response() {
    let mut store = DataStore::init(vec![]);
    assert_eq!(store.get_response().status, 0);
    assert_eq!(store.get_response().body, "");
    store.update_response(Response { status: 200, headers: String::from("a: b"), body: String::from("ok") });
    assert_eq!(store.get_response().status, 200);
    assert_eq!(store.get_response().headers, "a: b");
    assert_eq!(store.get_response().body, "ok");
}

#[test]
fn data_store_goto_out_of_range_fails() {
    let mut a = Request::default();
    a.set_name("A");
    let mut b = Request::default();
    b.set_name("B");
    let mut store = DataStore::init(vec![a, b]);
    assert_eq!(store.goto_request(1), Some(()));
    assert_eq!(store.goto_request(2), None);
    assert_eq!(store.request_ind(), 1);
    assert_eq!(store.get_request().name, "B");
}

#[test]
fn data_store_save_keeps_history() {
    let mut store = DataStore::init(vec![]);
    let mut other = Request::default();
    other.set_name("ignored");
    store.save_request(other);
    assert_eq!(store.get_requests().len(), 1);
    assert_eq!(store.get_requests()[0].name, "New Request");
    assert_eq!(store.get_request().name, "New Request");
}
