use rappel::grpc::{context_from_user_id, extract_context, RequestContext};
use rappel::service::config::{ServiceConf, ServiceInstance};
use rappel::service::context::{Context, ContextError};
use rappel::service::service::{machine_id_of_ipv4, ServiceOptions};
use rappel::service::{ServiceError, ShardedClient};

fn s(x: &str) -> String {
  x.to_string()
}

fn request(user: Option<&str>) -> tonic::Request<()> {
  let mut r = tonic::Request::new(());
  if let Some(u) = user {
    r.metadata_mut().insert("x-user-id", u.parse().unwrap());
  }
  r
}

#[test]
fn request_context_from_metadata() {
  let ctx = extract_context(&request(Some("42"))).expect("context");
  assert_eq!(ctx, RequestContext { user_id: 42 });
  assert_eq!(ctx.to_string(), "RequestContext { user_id: 42 }");
  let err = extract_context(&request(None)).unwrap_err();
  assert_eq!(err.code(), tonic::Code::Unauthenticated);
  assert_eq!(err.message(), "Missing `x-user-id` in metadata");
  let err = extract_context(&request(Some("abc"))).unwrap_err();
  assert_eq!(err.code(), tonic::Code::Unauthenticated);
  assert_eq!(err.message(), "invalid digit found in string");
}

#[test]
fn request_context_from_text() {
  assert_eq!(context_from_user_id(Some("-7")).expect("ctx").user_id, -7);
  assert_eq!(context_from_user_id(Some("+7")).expect("ctx").user_id, 7);
  assert!(context_from_user_id(Some("9223372036854775808")).is_err());
  assert_eq!(context_from_user_id(Some("9223372036854775807")).expect("ctx").user_id, i64::MAX);
  assert!(context_from_user_id(Some("")).is_err());
  assert_eq!(RequestContext { user_id: -3 }.to_string(), "RequestContext { user_id: -3 }");
}

#[test]
fn service_context_from_request() {
  let ctx = Context::from_request(&request(Some("1234"))).expect("context");
  assert_eq!(ctx.user_id(), 1234);
  assert!(matches!(Context::from_request(&request(None)), Err(ContextError::NotFound)));
  assert!(matches!(Context::from_request(&request(Some("x1"))), Err(ContextError::Malformed)));
  assert!(matches!(Context::from_header(None), Err(ContextError::NotFound)));
  let st = ContextError::Malformed.into_status();
  assert_eq!(st.code(), tonic::Code::Unauthenticated);
  assert_eq!(st.message(), "Unauthenticated");
}

fn build(conf: ServiceConf) -> Result<ShardedClient<String>, ServiceError> {
  ShardedClient::try_new(conf, |_endpoint| s("client"))
}

#[test]
fn sharded_client_borrows_first_instance() {
  let conf = ServiceConf {
    name: s("svc"),
    instances: vec![
      ServiceInstance { address: s("http://127.0.0.1:1"), shard_ranges: vec![] },
      ServiceInstance { address: s("http://127.0.0.1:2"), shard_ranges: vec![] },
    ],
  };
  let mut client = build(conf).expect("client");
  assert_eq!(client.borrow("k").expect("first"), "client");
  *client.borrow_mut("k").expect("first") = s("changed");
  assert_eq!(client.borrow("k").expect("first"), "changed");
  let empty = build(ServiceConf { name: s("none"), instances: vec![] }).expect("client");
  match empty.borrow("key-1") {
    Err(ServiceError::MissingClient(k)) => assert_eq!(k, "key-1"),
    _ => panic!("expected MissingClient"),
  }
  let bad = build(ServiceConf {
    name: s("bad"),
    instances: vec![ServiceInstance { address: s("not a uri"), shard_ranges: vec![] }],
  });
  assert!(matches!(bad, Err(ServiceError::InvalidUriError(_))));
}

#[test]
fn sharded_client_stops_at_first_bad_address() {
  let built = std::cell::Cell::new(0);
  let conf = ServiceConf {
    name: s("mixed"),
    instances: vec![
      ServiceInstance { address: s("http://127.0.0.1:1"), shard_ranges: vec![] },
      ServiceInstance { address: s("not a uri"), shard_ranges: vec![] },
      ServiceInstance { address: s("http://127.0.0.1:3"), shard_ranges: vec![] },
    ],
  };
  let r = ShardedClient::try_new(conf, |_endpoint| {
    built.set(built.get() + 1);
    s("client")
  });
  assert!(matches!(r, Err(ServiceError::InvalidUriError(_))));
  assert_eq!(built.get(), 1);
}

#[test]
fn machine_id_is_low_ten_bits_of_ipv4() {
  assert_eq!(machine_id_of_ipv4([10, 0, 3, 255]), 1023);
  assert_eq!(machine_id_of_ipv4([192, 168, 1, 2]), 258);
  assert_eq!(machine_id_of_ipv4([192, 168, 4, 0]), 0);
  let _ = ServiceOptions::default();
}

#[test]
fn decimal_text_of_integers() {
  assert_eq!(rappel::text::i64_to_string(0), "0");
  assert_eq!(rappel::text::i64_to_string(7), "7");
  assert_eq!(rappel::text::i64_to_string(-42), "-42");
  assert_eq!(rappel::text::i64_to_string(1234567890), "1234567890");
  assert_eq!(rappel::text::i64_to_string(i64::MAX), "9223372036854775807");
  assert_eq!(rappel::text::i64_to_string(i64::MIN), "-9223372036854775808");
}

#[test]
fn decimal_integers_are_read_as_std_reads_them() {
  assert_eq!(rappel::grpc::parse_i64("1234"), Some(1234));
  assert_eq!(rappel::grpc::parse_i64("+5"), Some(5));
  assert_eq!(rappel::grpc::parse_i64("-0"), Some(0));
  assert_eq!(rappel::grpc::parse_i64("-9223372036854775808"), Some(i64::MIN));
  assert_eq!(rappel::grpc::parse_i64("9223372036854775807"), Some(i64::MAX));
  assert_eq!(rappel::grpc::parse_i64("9223372036854775808"), None);
  assert_eq!(rappel::grpc::parse_i64("-9223372036854775809"), None);
  assert_eq!(rappel::grpc::parse_i64("123456789012345678901234"), None);
  for text in ["", "-", "+", "12a", " 1", "1 ", "--1", "+-1", "0x10", "٣", "007", "-12", "99999999999999999999x"] {
    assert_eq!(rappel::grpc::parse_i64(text), text.parse::<i64>().ok(), "{:?}", text);
  }
}

#[test]
fn unparsable_user_id_is_unauthenticated_with_the_parser_message() {
  let st = context_from_user_id(Some("x1")).expect_err("not a number");
  assert_eq!(st.code(), tonic::Code::Unauthenticated);
  assert_eq!(st.message(), "x1".parse::<i64>().unwrap_err().to_string());
}

#[test]
fn sharded_client_keeps_instance_order() {
  let conf = ServiceConf {
    name: s("ordered"),
    instances: vec![
      ServiceInstance { address: s("http://127.0.0.1:1"), shard_ranges: vec![] },
      ServiceInstance { address: s("http://127.0.0.1:2"), shard_ranges: vec![] },
    ],
  };
  let client = ShardedClient::try_new(conf, |endpoint: tonic::transport::Endpoint| endpoint.uri().to_string())
    .expect("client");
  assert_eq!(client.borrow("k").expect("first"), "http://127.0.0.1:1/");
}
