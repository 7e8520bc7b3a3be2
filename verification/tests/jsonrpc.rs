use lsp_jsonrpc::DecodeError;
use lsp_jsonrpc::JsonRpcError;
use lsp_jsonrpc::JsonRpcRequest;
use lsp_jsonrpc::JsonRpcResponse;
use lsp_jsonrpc::LspMethod;

fn all_methods() -> Vec<(LspMethod, &'static str)> {
    vec![
        (LspMethod::Initialize, "initialize"),
        (LspMethod::Shutdown, "shutdown"),
        (LspMethod::DidChange, "textDocument/didChange"),
        (LspMethod::DidOpen, "textDocument/didOpen"),
        (LspMethod::DidClose, "textDocument/didClose"),
        (LspMethod::Hover, "textDocument/hover"),
        (LspMethod::Completion, "textDocument/completion"),
        (LspMethod::SignatureHelp, "textDocument/signatureHelp"),
        (LspMethod::Definition, "textDocument/definition"),
        (LspMethod::References, "textDocument/references"),
        (LspMethod::DocumentSymbol, "textDocument/documentSymbol"),
        (LspMethod::DocumentHighlights, "textDocument/documentHighlights"),
        (LspMethod::DocumentFormatting, "textDocument/formatting"),
        (LspMethod::RangeFormatting, "textDocument/rangeFormatting"),
        (LspMethod::OnTypeFormatting, "textDocument/onTypeFormatting"),
        (LspMethod::CodeAction, "textDocument/codeAction"),
        (LspMethod::WorkspaceSymbol, "workspace/symbol"),
        (LspMethod::WorkspaceReferences, "workspace/references"),
        (LspMethod::Rename, "textDocument/rename"),
        (LspMethod::PrepareRename, "textDocument/prepareRename"),
        (LspMethod::ExecuteCommand, "workspace/executeCommand"),
    ]
}

#[test]
fn wire_string_table_is_exact() {
    for (method, wire) in all_methods() {
        assert_eq!(method.to_string(), wire);
    }
}

#[test]
fn round_trip_every_method() {
    for (method, _) in all_methods() {
        assert_eq!(LspMethod::from_str(method.to_string()), Some(method));
    }
}

#[test]
fn negative_lookup() {
    assert_eq!(LspMethod::from_str("not/a/method"), None);
    assert_eq!(LspMethod::from_str(""), None);
    assert_eq!(LspMethod::from_str("Initialize"), None);
    assert_eq!(LspMethod::from_str("textDocument/hover "), None);
}

#[test]
fn wire_strings_are_unique() {
    let methods = all_methods();
    for i in 0..methods.len() {
        for j in (i + 1)..methods.len() {
            assert_ne!(methods[i].0.to_string(), methods[j].0.to_string());
        }
    }
}

#[test]
fn build_injects_the_version_constant() {
    let request = JsonRpcRequest::build(LspMethod::Shutdown, vec![], 7);
    assert_eq!(request.jsonrpc, "2.0");
    assert_eq!(request.method, "shutdown");
    assert!(request.params.is_empty());
    assert_eq!(request.id, 7);
}

#[test]
fn request_serialization_literal() {
    let request = JsonRpcRequest::build(LspMethod::Initialize, vec![], 1);
    assert_eq!(
        request.serialize(),
        "{\"jsonrpc\":\"2.0\",\"method\":\"initialize\",\"params\":[],\"id\":1}"
    );
}

#[test]
fn request_serialization_with_params() {
    let params = vec!["{\"a\":1}".to_string(), "2".to_string(), "\"x\"".to_string()];
    let request = JsonRpcRequest::build(LspMethod::Hover, params, 42);
    assert_eq!(
        request.serialize(),
        "{\"jsonrpc\":\"2.0\",\"method\":\"textDocument/hover\",\"params\":[{\"a\":1},2,\"x\"],\"id\":42}"
    );
}

#[test]
fn request_serialization_largest_id() {
    let request = JsonRpcRequest::build(LspMethod::Shutdown, vec![], u64::MAX);
    assert_eq!(
        request.serialize(),
        "{\"jsonrpc\":\"2.0\",\"method\":\"shutdown\",\"params\":[],\"id\":18446744073709551615}"
    );
}

#[test]
fn response_success_literal() {
    let response =
        JsonRpcResponse::parse("{\"jsonrpc\":\"2.0\",\"result\":{\"capabilities\":{}},\"id\":1}")
            .unwrap();
    assert_eq!(response.jsonrpc, "2.0");
    assert_eq!(response.result, Some("{\"capabilities\":{}}".to_string()));
    assert_eq!(response.error, None);
    assert_eq!(response.id, 1);
}

#[test]
fn response_failure_literal() {
    let response = JsonRpcResponse::parse(
        "{\"jsonrpc\":\"2.0\",\"error\":{\"code\":-32601,\"message\":\"Method not found\"},\"id\":2}",
    )
    .unwrap();
    assert_eq!(response.result, None);
    assert_eq!(
        response.error,
        Some(JsonRpcError {
            code: -32601,
            message: "Method not found".to_string(),
            data: None,
        })
    );
    assert_eq!(response.id, 2);
}

#[test]
fn response_error_with_data() {
    let response = JsonRpcResponse::parse(
        "{\"jsonrpc\":\"2.0\",\"error\":{\"code\":-32602,\"message\":\"Invalid params\",\"data\":{\"hint\":\"k\"}},\"id\":9}",
    )
    .unwrap();
    let error = response.error.unwrap();
    assert_eq!(error.code, -32602);
    assert_eq!(error.message, "Invalid params");
    assert_eq!(error.data, Some("{\"hint\":\"k\"}".to_string()));
}

#[test]
fn result_text_is_compact_rendering() {
    let response = JsonRpcResponse::parse(
        "{\"jsonrpc\":\"2.0\",\"result\": {\"a\": 1, \"b\": [true , null]} ,\"id\":6}",
    )
    .unwrap();
    assert_eq!(response.result, Some("{\"a\":1,\"b\":[true,null]}".to_string()));
}

#[test]
fn malformed_missing_id() {
    assert_eq!(
        JsonRpcResponse::parse("{\"jsonrpc\":\"2.0\",\"result\":null}"),
        Err(DecodeError::MalformedEnvelope)
    );
}

#[test]
fn malformed_missing_version_tag() {
    assert_eq!(
        JsonRpcResponse::parse("{\"result\":{},\"id\":1}"),
        Err(DecodeError::MalformedEnvelope)
    );
}

#[test]
fn malformed_not_json() {
    assert_eq!(
        JsonRpcResponse::parse("not a json payload"),
        Err(DecodeError::MalformedEnvelope)
    );
    assert_eq!(JsonRpcResponse::parse(""), Err(DecodeError::MalformedEnvelope));
}

#[test]
fn malformed_id_of_wrong_type() {
    assert_eq!(
        JsonRpcResponse::parse("{\"jsonrpc\":\"2.0\",\"result\":{},\"id\":\"one\"}"),
        Err(DecodeError::MalformedEnvelope)
    );
    assert_eq!(
        JsonRpcResponse::parse("{\"jsonrpc\":\"2.0\",\"result\":{},\"id\":-4}"),
        Err(DecodeError::MalformedEnvelope)
    );
}

#[test]
fn malformed_error_object() {
    assert_eq!(
        JsonRpcResponse::parse("{\"jsonrpc\":\"2.0\",\"error\":{\"message\":\"m\"},\"id\":1}"),
        Err(DecodeError::MalformedEnvelope)
    );
    assert_eq!(
        JsonRpcResponse::parse("{\"jsonrpc\":\"2.0\",\"error\":{\"code\":1},\"id\":1}"),
        Err(DecodeError::MalformedEnvelope)
    );
    assert_eq!(
        JsonRpcResponse::parse(
            "{\"jsonrpc\":\"2.0\",\"error\":{\"code\":3000000000,\"message\":\"m\"},\"id\":1}"
        ),
        Err(DecodeError::MalformedEnvelope)
    );
}

#[test]
fn null_optional_fields_decode_to_absent() {
    let response =
        JsonRpcResponse::parse("{\"jsonrpc\":\"2.0\",\"result\":null,\"error\":null,\"id\":3}")
            .unwrap();
    assert_eq!(response.result, None);
    assert_eq!(response.error, None);
    assert_eq!(response.id, 3);
}

#[test]
fn standard_error_codes() {
    assert_eq!(lsp_jsonrpc::envelope::PARSE_ERROR, -32700);
    assert_eq!(lsp_jsonrpc::envelope::INVALID_REQUEST, -32600);
    assert_eq!(lsp_jsonrpc::envelope::METHOD_NOT_FOUND, -32601);
    assert_eq!(lsp_jsonrpc::envelope::INVALID_PARAMS, -32602);
    assert_eq!(lsp_jsonrpc::envelope::INTERNAL_ERROR, -32603);
    assert_eq!(lsp_jsonrpc::envelope::REQUEST_CANCELLED, -32800);
    assert_eq!(lsp_jsonrpc::envelope::CONTENT_MODIFIED, -32801);
    let response = JsonRpcResponse::parse(
        "{\"jsonrpc\":\"2.0\",\"error\":{\"code\":-32601,\"message\":\"Method not found\"},\"id\":2}",
    )
    .unwrap();
    assert_eq!(response.error.unwrap().code, lsp_jsonrpc::envelope::METHOD_NOT_FOUND);
}

#[test]
fn outcome_of_success() {
    let response =
        JsonRpcResponse::parse("{\"jsonrpc\":\"2.0\",\"result\":{\"capabilities\":{}},\"id\":1}")
            .unwrap();
    assert_eq!(response.outcome(), Ok("{\"capabilities\":{}}".to_string()));
}

#[test]
fn outcome_of_server_error() {
    let response = JsonRpcResponse::parse(
        "{\"jsonrpc\":\"2.0\",\"error\":{\"code\":-32601,\"message\":\"Method not found\"},\"id\":2}",
    )
    .unwrap();
    assert_eq!(response.outcome(), Err(DecodeError::ProtocolError));
}

#[test]
fn outcome_of_ill_shaped_responses() {
    let both = JsonRpcResponse {
        jsonrpc: "2.0".to_string(),
        result: Some("1".to_string()),
        error: Some(JsonRpcError { code: 0, message: "m".to_string(), data: None }),
        id: 4,
    };
    assert_eq!(both.outcome(), Err(DecodeError::MalformedEnvelope));
    let neither = JsonRpcResponse {
        jsonrpc: "2.0".to_string(),
        result: None,
        error: None,
        id: 5,
    };
    assert_eq!(neither.outcome(), Err(DecodeError::MalformedEnvelope));
}
