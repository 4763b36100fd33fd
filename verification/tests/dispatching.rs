use nimiq_jsonrpc_derive::dispatch::{
    complete, Action, DispatchTable, DuplicateMethod, Handler, MatchArm, Outcome,
};
use nimiq_jsonrpc_derive::envelope::{DispatchError, Request, Response};
use nimiq_jsonrpc_derive::method::RpcMethod;
use nimiq_jsonrpc_derive::params::{Entry, Payload};
use nimiq_jsonrpc_derive::signature::{FnArg, Pat, ReturnType, Signature};

fn typed(ident: &str, ty: &str) -> FnArg {
    FnArg::Typed { pat: Pat::Ident(ident.to_string()), ty: ty.to_string() }
}

fn method(ident: &str, params: &[(&str, &str)], output: Option<&str>) -> RpcMethod {
    let mut inputs = vec![FnArg::Receiver];
    for (name, ty) in params.iter() {
        inputs.push(typed(name, ty));
    }
    let signature = Signature {
        ident: ident.to_string(),
        inputs,
        output: match output {
            Some(ty) => ReturnType::Type(ty.to_string()),
            None => ReturnType::Default,
        },
    };
    RpcMethod::new(&signature, "Calc").unwrap()
}

fn calculator() -> DispatchTable {
    DispatchTable::build(&vec![
        method("add", &[("a", "i64"), ("b", "i64")], Some("i64")),
        method("ping", &[], Some("String")),
        method("negate", &[("value", "i64")], Some("i64")),
    ])
    .unwrap()
}

fn record(entries: &[(&str, &str)]) -> Option<Payload> {
    Some(Payload::Record(
        entries
            .iter()
            .map(|(key, value)| Entry { key: key.to_string(), value: value.to_string() })
            .collect(),
    ))
}

fn request(method: &str, params: Option<Payload>, id: &str) -> Request {
    Request { method: method.to_string(), params, id: id.to_string() }
}

fn invoke(method: &str, args: &[&str]) -> Action {
    Action::Invoke {
        method: method.to_string(),
        args: args.iter().map(|s| s.to_string()).collect(),
    }
}

fn refuse(id: &str, error: DispatchError) -> Action {
    Action::Respond(Response { id: id.to_string(), outcome: Err(error) })
}

#[test]
fn table_has_one_arm_per_method_in_order() {
    let table = calculator();
    assert_eq!(table.method_names(), vec!["add", "ping", "negate"]);
    assert_eq!(table.arms().len(), 3);
    assert_eq!(
        table.arms()[1],
        MatchArm {
            method_name_literal: "\"ping\"".to_string(),
            method_ident: "ping".to_string(),
            return_ty: "String".to_string(),
            handler: Handler::WithoutArgs,
        }
    );
    assert_eq!(table.arms()[2], method("negate", &[("value", "i64")], Some("i64"))
        .generate_dispatcher_match_arm());
}

#[test]
fn table_of_no_methods_is_empty() {
    let table = DispatchTable::build(&vec![]).unwrap();
    assert!(table.method_names().is_empty());
    assert_eq!(
        table.dispatch(&request("add", None, "1")),
        refuse("1", DispatchError::MethodNotFound)
    );
}

#[test]
fn table_refuses_two_methods_of_one_name() {
    let built = DispatchTable::build(&vec![
        method("add", &[("a", "i64")], None),
        method("ping", &[], None),
        method("add", &[], None),
        method("ping", &[("x", "u8")], None),
    ]);
    assert_eq!(built.unwrap_err(), DuplicateMethod { name: "add".to_string() });
}

#[test]
fn table_names_the_first_name_that_repeats() {
    let built = DispatchTable::build(&vec![
        method("a", &[], None),
        method("b", &[], None),
        method("c", &[], None),
        method("c", &[], None),
        method("a", &[], None),
    ]);
    assert_eq!(built.unwrap_err(), DuplicateMethod { name: "c".to_string() });
}

#[test]
fn resolve_matches_the_whole_name_exactly() {
    let table = calculator();
    assert_eq!(table.resolve(&"add".to_string()), Some(0));
    assert_eq!(table.resolve(&"ping".to_string()), Some(1));
    assert_eq!(table.resolve(&"negate".to_string()), Some(2));
    assert_eq!(table.resolve(&"Add".to_string()), None);
    assert_eq!(table.resolve(&"ad".to_string()), None);
    assert_eq!(table.resolve(&"add ".to_string()), None);
    assert_eq!(table.resolve(&"adda".to_string()), None);
    assert_eq!(table.resolve(&"".to_string()), None);
}

#[test]
fn arm_matches_only_its_own_name() {
    let arm = method("add", &[("a", "i64")], None).generate_dispatcher_match_arm();
    assert!(arm.matches(&"add".to_string()));
    assert!(!arm.matches(&"ADD".to_string()));
    assert!(!arm.matches(&"\"add\"".to_string()));
}

#[test]
fn dispatch_unpacks_arguments_in_declared_order() {
    let table = calculator();
    assert_eq!(
        table.dispatch(&request("add", record(&[("a", "2"), ("b", "3")]), "7")),
        invoke("add", &["2", "3"])
    );
    assert_eq!(
        table.dispatch(&request("add", record(&[("b", "3"), ("a", "2")]), "7")),
        invoke("add", &["2", "3"])
    );
}

#[test]
fn dispatch_of_unknown_method_is_method_not_found() {
    let table = calculator();
    assert_eq!(
        table.dispatch(&request("subtract", record(&[("a", "2"), ("b", "3")]), "8")),
        refuse("8", DispatchError::MethodNotFound)
    );
    assert_eq!(
        table.dispatch(&request("subtract", None, "9")),
        refuse("9", DispatchError::MethodNotFound)
    );
}

#[test]
fn dispatch_with_missing_field_is_invalid_params() {
    let table = calculator();
    assert_eq!(
        table.dispatch(&request("add", record(&[("a", "2")]), "10")),
        refuse("10", DispatchError::InvalidParams)
    );
}

#[test]
fn dispatch_with_absent_params_for_method_with_parameters_is_invalid_params() {
    let table = calculator();
    assert_eq!(
        table.dispatch(&request("add", None, "11")),
        refuse("11", DispatchError::InvalidParams)
    );
}

#[test]
fn dispatch_with_params_of_wrong_shape_is_invalid_params() {
    let table = calculator();
    assert_eq!(
        table.dispatch(&request("add", Some(Payload::Plain("[2,3]".to_string())), "12")),
        refuse("12", DispatchError::InvalidParams)
    );
    assert_eq!(
        table.dispatch(&request("negate", Some(Payload::Plain("5".to_string())), "13")),
        refuse("13", DispatchError::InvalidParams)
    );
}

#[test]
fn dispatch_of_method_without_parameters_needs_no_params() {
    let table = calculator();
    assert_eq!(table.dispatch(&request("ping", None, "14")), invoke("ping", &[]));
}

#[test]
fn dispatch_of_method_without_parameters_does_not_read_params() {
    let table = calculator();
    assert_eq!(table.dispatch(&request("ping", record(&[]), "15")), invoke("ping", &[]));
    assert_eq!(
        table.dispatch(&request("ping", record(&[("a", "2")]), "15")),
        invoke("ping", &[])
    );
    assert_eq!(
        table.dispatch(&request("ping", Some(Payload::Plain("null".to_string())), "15")),
        invoke("ping", &[])
    );
}

#[test]
fn arm_handles_a_request_without_a_table() {
    let arm = method("negate", &[("value", "i64")], Some("i64")).generate_dispatcher_match_arm();
    assert_eq!(
        arm.handle(&request("negate", record(&[("value", "4")]), "1")),
        invoke("negate", &["4"])
    );
    assert_eq!(
        arm.handle(&request("negate", record(&[("valu", "4")]), "1")),
        refuse("1", DispatchError::InvalidParams)
    );
}

#[test]
fn complete_puts_the_return_value_into_the_response_unchanged() {
    let asked = request("ping", None, "\"abc\"");
    assert_eq!(
        complete(&asked, Outcome::Returned("\"pong\"".to_string())),
        Response { id: "\"abc\"".to_string(), outcome: Ok("\"pong\"".to_string()) }
    );
}

#[test]
fn complete_reports_rejected_arguments_as_invalid_params() {
    let asked = request("add", record(&[("a", "true"), ("b", "3")]), "16");
    assert_eq!(
        complete(&asked, Outcome::ArgumentsRejected),
        Response { id: "16".to_string(), outcome: Err(DispatchError::InvalidParams) }
    );
}

#[test]
fn responses_are_built_with_result_or_error() {
    assert_eq!(
        Response::new_success("1".to_string(), "5".to_string()),
        Response { id: "1".to_string(), outcome: Ok("5".to_string()) }
    );
    assert_eq!(
        Response::new_error("1".to_string(), DispatchError::MethodNotFound),
        Response { id: "1".to_string(), outcome: Err(DispatchError::MethodNotFound) }
    );
}

#[test]
fn many_dispatches_give_what_each_gives_alone() {
    let table = calculator();
    let mut requests = Vec::new();
    for i in 0..40 {
        let id = format!("{}", i);
        requests.push(match i % 4 {
            0 => request("add", record(&[("a", &id), ("b", "1")]), &id),
            1 => request("ping", None, &id),
            2 => request("add", record(&[("b", &id)]), &id),
            _ => request("missing", None, &id),
        });
    }
    let alone: Vec<Action> =
        requests.iter().map(|r| calculator().dispatch(r)).collect();
    let forward: Vec<Action> = requests.iter().map(|r| table.dispatch(r)).collect();
    let mut backward: Vec<Action> = requests.iter().rev().map(|r| table.dispatch(r)).collect();
    backward.reverse();
    assert_eq!(forward, alone);
    assert_eq!(backward, alone);
    assert_eq!(alone[0], invoke("add", &["0", "1"]));
    assert_eq!(alone[4], invoke("add", &["4", "1"]));
    assert_eq!(alone[5], invoke("ping", &[]));
    assert_eq!(alone[6], refuse("6", DispatchError::InvalidParams));
    assert_eq!(alone[7], refuse("7", DispatchError::MethodNotFound));
}
