use command_bridge::protocol::{canonical_params, CommandRequest, Field, ParamValue};
use command_bridge::registry::{
    ask_question, check_ollama_installed, clear_chat_history, delete_document,
    get_ai_settings, get_chat_history, get_document_stats, get_documents, get_license_info,
    get_ollama_models, get_vector_stats, install_ollama_model, remove_license,
    reset_vector_store, save_ai_settings, upload_document,
};

fn forwarded(r: &CommandRequest) -> (String, String) {
    (r.command.clone(), canonical_params(&r.params))
}

fn every_operation() -> Vec<CommandRequest> {
    vec![
        upload_document("/tmp/a.pdf".to_string()),
        get_documents(),
        delete_document("doc-7".to_string()),
        get_document_stats(),
        ask_question("What is in the report?".to_string()),
        get_chat_history(None),
        get_chat_history(Some(10)),
        clear_chat_history(),
        get_ai_settings(),
        save_ai_settings("{\"model\":\"llama3\"}".to_string()),
        check_ollama_installed(),
        get_ollama_models(),
        install_ollama_model("llama3".to_string()),
        get_vector_stats(),
        reset_vector_store(),
    ]
}

#[test]
fn chat_history_defaults_to_fifty() {
    let r = get_chat_history(None);
    assert_eq!(forwarded(&r), ("get_chat_history".to_string(), "{\"limit\":50}".to_string()));
}

#[test]
fn chat_history_keeps_given_limit() {
    let r = get_chat_history(Some(10));
    assert_eq!(forwarded(&r), ("get_chat_history".to_string(), "{\"limit\":10}".to_string()));
}

#[test]
fn chat_history_negative_limit_is_forwarded() {
    let r = get_chat_history(Some(-3));
    assert_eq!(canonical_params(&r.params), "{\"limit\":-3}");
    let r = get_chat_history(Some(i32::MIN));
    assert_eq!(canonical_params(&r.params), "{\"limit\":-2147483648}");
}

#[test]
fn upload_forwards_file_path_verbatim() {
    let r = upload_document("/tmp/a.pdf".to_string());
    assert_eq!(
        forwarded(&r),
        ("process_document".to_string(), "{\"file_path\":\"/tmp/a.pdf\"}".to_string())
    );
}

#[test]
fn text_parameters_are_escaped() {
    let r = ask_question("say \"hi\"\n".to_string());
    assert_eq!(canonical_params(&r.params), "{\"question\":\"say \\\"hi\\\"\\n\"}");
}

#[test]
fn operations_forward_their_commands() {
    let names: Vec<String> = every_operation().iter().map(|r| r.command.clone()).collect();
    assert_eq!(
        names,
        vec![
            "process_document", "get_all_documents", "delete_document", "get_document_stats",
            "answer_question", "get_chat_history", "get_chat_history", "clear_chat_history",
            "get_ai_settings", "save_ai_settings", "check_ollama_installed",
            "get_ollama_models", "install_ollama_model", "get_vector_stats",
            "reset_vector_store",
        ]
    );
}

#[test]
fn operations_without_parameters_send_empty_object() {
    for r in [get_documents(), get_document_stats(), clear_chat_history(), get_vector_stats()] {
        assert!(r.params.is_none());
        assert_eq!(canonical_params(&r.params), "{}");
    }
}

#[test]
fn one_member_operations() {
    assert_eq!(canonical_params(&delete_document("doc-7".to_string()).params), "{\"doc_id\":\"doc-7\"}");
    assert_eq!(
        canonical_params(&save_ai_settings("x".to_string()).params),
        "{\"settings\":\"x\"}"
    );
    assert_eq!(
        canonical_params(&install_ollama_model("llama3".to_string()).params),
        "{\"model_name\":\"llama3\"}"
    );
}

#[test]
fn parameter_text_reencodes_identically() {
    for r in every_operation() {
        let text = canonical_params(&r.params);
        let value: serde_json::Value = serde_json::from_str(&text).unwrap();
        assert_eq!(value.to_string(), text);
        let again: serde_json::Value = serde_json::from_str(&value.to_string()).unwrap();
        assert_eq!(again.to_string(), text);
    }
}

#[test]
fn members_are_written_in_order() {
    let fields = vec![
        Field { key: "b".to_string(), value: ParamValue::Text("x".to_string()) },
        Field { key: "a".to_string(), value: ParamValue::Int(1) },
    ];
    assert_eq!(canonical_params(&Some(fields)), "{\"b\":\"x\",\"a\":1}");
    assert_eq!(canonical_params(&Some(Vec::new())), "{}");
    assert_eq!(canonical_params(&None), "{}");
}

#[test]
fn license_is_always_valid_stub() {
    let t = get_license_info().unwrap();
    assert_eq!(t, "{\"valid\": true, \"email\": \"user@example.com\", \"tier\": \"pro\"}");
    let v: serde_json::Value = serde_json::from_str(&t).unwrap();
    assert_eq!(v["valid"], serde_json::Value::Bool(true));
    assert_eq!(remove_license(), Ok(()));
}
