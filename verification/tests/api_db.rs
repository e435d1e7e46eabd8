use randao::api::{exit_result, json_error_result, not_found_result, ApiResult};
use randao::db::{redis_endpoint, Db, Proto};
use randao::error::Error;

#[test]
fn api_result_builders() {
    let r: ApiResult<i32> = ApiResult::new();
    assert_eq!(r.code, 200);
    assert_eq!(r.msg_as_str(), "");
    assert!(r.data.is_none());
    let r = r.code(404).with_msg("gone".to_string()).with_data(5);
    assert_eq!(r.code, 404);
    assert_eq!(r.msg_as_str(), "gone");
    assert_eq!(r.data, Some(5));
}

#[test]
fn api_canned_replies() {
    let e = json_error_result("bad json".to_string());
    assert_eq!((e.code, e.msg_as_str()), (400, "bad json"));
    assert_eq!(e.data, Some(()));
    let n = not_found_result();
    assert_eq!((n.code, n.msg_as_str()), (404, "route not found"));
    let x = exit_result();
    assert_eq!((x.code, x.msg_as_str()), (400, "exit success "));
}

#[test]
fn redis_urls() {
    assert_eq!(redis_endpoint(None, "127.0.0.1", None, None), "redis://127.0.0.1");
    assert_eq!(
        redis_endpoint(Some(("u", "p")), "127.0.0.1", Some(6379), Some(0)),
        "redis://u:p@127.0.0.1:6379/0"
    );
}

#[test]
fn redis_handles() {
    match Db::new(Some(Proto::Unix), None, "/tmp/redis.sock", None, None) {
        Err(Error::NotSupport(m)) => assert_eq!(m, "Unix socket is not supported currently"),
        _ => panic!("unix sockets are refused"),
    }
    let db = Db::new(None, None, "127.0.0.1", Some(6379), Some(1)).unwrap();
    assert_eq!(db.endpoint, "redis://127.0.0.1:6379/1");
    assert_eq!(db.proto, Proto::Url);
    assert_eq!(db.proto.as_str(), "redis");
    assert_eq!(Proto::Unix.as_str(), "unix socket");
    assert!(matches!(Db::new(None, None, "bad host", Some(1), None), Err(Error::Unknown(_))));
}
