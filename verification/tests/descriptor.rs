use nimiq_jsonrpc_derive::dispatch::{Handler, MatchArm};
use nimiq_jsonrpc_derive::method::{DescriptorError, RpcMethod};
use nimiq_jsonrpc_derive::params::{ArgsStruct, Param};
use nimiq_jsonrpc_derive::proxy::{ProxyArgs, ProxyMethod};
use nimiq_jsonrpc_derive::signature::{FnArg, Pat, ReturnType, Signature};

fn typed(ident: &str, ty: &str) -> FnArg {
    FnArg::Typed { pat: Pat::Ident(ident.to_string()), ty: ty.to_string() }
}

fn pattern(ty: &str) -> FnArg {
    FnArg::Typed { pat: Pat::Other, ty: ty.to_string() }
}

fn param(ident: &str, ty: &str) -> Param {
    Param { ident: ident.to_string(), ty: ty.to_string() }
}

fn add_signature() -> Signature {
    Signature {
        ident: "add".to_string(),
        inputs: vec![FnArg::Receiver, typed("a", "i64"), typed("b", "i64")],
        output: ReturnType::Type("i64".to_string()),
    }
}

fn ping_signature() -> Signature {
    Signature {
        ident: "ping".to_string(),
        inputs: vec![FnArg::Receiver],
        output: ReturnType::Type("String".to_string()),
    }
}

#[test]
fn descriptor_keeps_name_parameters_and_return_type() {
    let method = RpcMethod::new(&add_signature(), "ServiceArgs").unwrap();
    assert_eq!(method.name(), "add");
    assert_eq!(method.return_ty(), "i64");
    assert_eq!(method.args(), &vec![param("a", "i64"), param("b", "i64")]);
    assert_eq!(method.args_struct_ident(), "ServiceArgs_add");
}

#[test]
fn descriptor_without_return_type_returns_unit() {
    let signature = Signature {
        ident: "stop".to_string(),
        inputs: vec![FnArg::Receiver],
        output: ReturnType::Default,
    };
    let method = RpcMethod::new(&signature, "Args").unwrap();
    assert_eq!(method.return_ty(), "()");
    assert!(method.args().is_empty());
    assert_eq!(method.args_struct_ident(), "Args_stop");
}

#[test]
fn descriptor_literal_is_the_quoted_name() {
    let method = RpcMethod::new(&add_signature(), "ServiceArgs").unwrap();
    assert_eq!(method.method_name_literal(), "\"add\"");
    assert_ne!(method.method_name_literal(), method.name());
}

#[test]
fn descriptor_with_given_literal_carries_it() {
    let method =
        RpcMethod::with_literal(&add_signature(), "P", "\"add\"".to_string()).unwrap();
    assert_eq!(method.method_name_literal(), "\"add\"");
    assert_eq!(method.name(), "add");
    assert_eq!(method.args_struct_ident(), "P_add");
    assert_eq!(method, RpcMethod::new(&add_signature(), "P").unwrap());
}

#[test]
fn descriptor_with_empty_prefix_starts_with_underscore() {
    let method = RpcMethod::new(&ping_signature(), "").unwrap();
    assert_eq!(method.args_struct_ident(), "_ping");
}

#[test]
fn declaration_without_receiver_is_refused() {
    let signature = Signature {
        ident: "add".to_string(),
        inputs: vec![typed("a", "i64"), typed("b", "i64")],
        output: ReturnType::Type("i64".to_string()),
    };
    assert_eq!(RpcMethod::new(&signature, "Args"), Err(DescriptorError::NoReceiver));
}

#[test]
fn declaration_without_inputs_is_refused() {
    let signature =
        Signature { ident: "free".to_string(), inputs: vec![], output: ReturnType::Default };
    assert_eq!(RpcMethod::new(&signature, "Args"), Err(DescriptorError::NoReceiver));
}

#[test]
fn declaration_with_pattern_argument_is_refused() {
    let signature = Signature {
        ident: "add".to_string(),
        inputs: vec![FnArg::Receiver, typed("a", "i64"), pattern("(i64, i64)")],
        output: ReturnType::Type("i64".to_string()),
    };
    assert_eq!(RpcMethod::new(&signature, "Args"), Err(DescriptorError::PatternArgument));
}

#[test]
fn pattern_argument_is_reported_before_missing_receiver() {
    let signature = Signature {
        ident: "add".to_string(),
        inputs: vec![typed("a", "i64"), pattern("(i64, i64)")],
        output: ReturnType::Default,
    };
    assert_eq!(RpcMethod::new(&signature, "Args"), Err(DescriptorError::PatternArgument));
    assert_eq!(
        RpcMethod::with_literal(&signature, "Args", "\"add\"".to_string()),
        Err(DescriptorError::PatternArgument)
    );
}

#[test]
fn receiver_is_no_parameter_wherever_it_stands() {
    let signature = Signature {
        ident: "odd".to_string(),
        inputs: vec![typed("a", "u8"), FnArg::Receiver, typed("b", "u16")],
        output: ReturnType::Default,
    };
    let method = RpcMethod::new(&signature, "Args").unwrap();
    assert_eq!(method.args(), &vec![param("a", "u8"), param("b", "u16")]);
}

#[test]
fn args_struct_has_one_field_per_parameter_in_order() {
    let method = RpcMethod::new(&add_signature(), "ServiceArgs").unwrap();
    assert_eq!(
        method.generate_args_struct(),
        ArgsStruct {
            ident: "ServiceArgs_add".to_string(),
            fields: vec![param("a", "i64"), param("b", "i64")],
        }
    );
}

#[test]
fn args_struct_is_the_same_on_every_call() {
    let method = RpcMethod::new(&add_signature(), "ServiceArgs").unwrap();
    assert_eq!(method.generate_args_struct(), method.generate_args_struct());
    let again = RpcMethod::new(&add_signature(), "ServiceArgs").unwrap();
    assert_eq!(method.generate_args_struct(), again.generate_args_struct());
}

#[test]
fn args_struct_of_method_without_parameters_is_empty() {
    let method = RpcMethod::new(&ping_signature(), "ServiceArgs").unwrap();
    assert_eq!(
        method.generate_args_struct(),
        ArgsStruct { ident: "ServiceArgs_ping".to_string(), fields: vec![] }
    );
}

#[test]
fn match_arm_of_method_with_parameters_decodes_the_record() {
    let method = RpcMethod::new(&add_signature(), "ServiceArgs").unwrap();
    assert_eq!(
        method.generate_dispatcher_match_arm(),
        MatchArm {
            method_name_literal: "\"add\"".to_string(),
            method_ident: "add".to_string(),
            return_ty: "i64".to_string(),
            handler: Handler::WithArgs {
                args_struct_ident: "ServiceArgs_add".to_string(),
                method_args: vec!["a".to_string(), "b".to_string()],
            },
        }
    );
}

#[test]
fn match_arm_of_method_without_parameters_decodes_nothing() {
    let method = RpcMethod::new(&ping_signature(), "ServiceArgs").unwrap();
    assert_eq!(
        method.generate_dispatcher_match_arm(),
        MatchArm {
            method_name_literal: "\"ping\"".to_string(),
            method_ident: "ping".to_string(),
            return_ty: "String".to_string(),
            handler: Handler::WithoutArgs,
        }
    );
}

#[test]
fn proxy_method_of_method_with_parameters_sends_the_record() {
    let method = RpcMethod::new(&add_signature(), "ServiceArgs").unwrap();
    assert_eq!(
        method.generate_proxy_method(),
        ProxyMethod {
            method_ident: "add".to_string(),
            method_name_literal: "\"add\"".to_string(),
            method_args: vec![param("a", "i64"), param("b", "i64")],
            return_ty: "i64".to_string(),
            args: ProxyArgs::Struct {
                args_struct_ident: "ServiceArgs_add".to_string(),
                struct_fields: vec!["a".to_string(), "b".to_string()],
            },
        }
    );
}

#[test]
fn proxy_method_of_method_without_parameters_sends_nothing() {
    let method = RpcMethod::new(&ping_signature(), "ServiceArgs").unwrap();
    assert_eq!(
        method.generate_proxy_method(),
        ProxyMethod {
            method_ident: "ping".to_string(),
            method_name_literal: "\"ping\"".to_string(),
            method_args: vec![],
            return_ty: "String".to_string(),
            args: ProxyArgs::Unit,
        }
    );
}

#[test]
fn both_ends_use_the_same_names() {
    let method = RpcMethod::new(&add_signature(), "ServiceArgs").unwrap();
    let arm = method.generate_dispatcher_match_arm();
    let proxy = method.generate_proxy_method();
    let shape = method.generate_args_struct();
    assert_eq!(arm.method_ident, proxy.method_ident);
    assert_eq!(arm.method_name_literal, proxy.method_name_literal);
    assert_eq!(arm.return_ty, proxy.return_ty);
    match (arm.handler, proxy.args) {
        (
            Handler::WithArgs { args_struct_ident: served, method_args },
            ProxyArgs::Struct { args_struct_ident: sent, struct_fields },
        ) => {
            assert_eq!(served, sent);
            assert_eq!(served, shape.ident);
            assert_eq!(method_args, struct_fields);
            assert_eq!(method_args, shape.field_names());
        }
        _ => panic!("a method with parameters has a record on both ends"),
    }
}
