//! The host's catalogue of operations: each one names the command it forwards
//! and builds that command's parameters.
use vstd::prelude::*;
use crate::protocol::{CommandRequest, Field, ParamModel, ParamValue, fields_model};

verus! {

/// The number of chat messages asked for when the caller names no limit.
pub const DEFAULT_HISTORY_LIMIT: i32 = 50;

/// A request without parameters.
fn without_params(command: &str) -> (r: CommandRequest)
    ensures
        r@.command == command@,
        r@.params == None::<Seq<(Seq<char>, ParamModel)>>,
{
    CommandRequest { command: String::from_str(command), params: None }
}

/// A request whose parameter object has the one member `key: value`.
fn with_param(command: &str, key: &str, value: ParamValue) -> (r: CommandRequest)
    ensures
        r@.command == command@,
        r@.params == Some(seq![(key@, value@)]),
{
    let mut fields: Vec<Field> = Vec::new();
    fields.push(Field { key: String::from_str(key), value });
    let r = CommandRequest { command: String::from_str(command), params: Some(fields) };
    assert(fields_model(fields@) =~= seq![(key@, value@)]);
    r
}

/// Ingests the document at `file_path`.
pub fn upload_document(file_path: String) -> (r: CommandRequest)
    ensures
        r@.command == "process_document"@,
        r@.params == Some(seq![("file_path"@, ParamModel::Text(file_path@))]),
{
    with_param("process_document", "file_path", ParamValue::Text(file_path))
}

/// Lists the ingested documents.
pub fn get_documents() -> (r: CommandRequest)
    ensures
        r@.command == "get_all_documents"@,
        r@.params == None::<Seq<(Seq<char>, ParamModel)>>,
{
    without_params("get_all_documents")
}

/// Deletes the document `doc_id`.
pub fn delete_document(doc_id: String) -> (r: CommandRequest)
    ensures
        r@.command == "delete_document"@,
        r@.params == Some(seq![("doc_id"@, ParamModel::Text(doc_id@))]),
{
    with_param("delete_document", "doc_id", ParamValue::Text(doc_id))
}

/// Reports document statistics.
pub fn get_document_stats() -> (r: CommandRequest)
    ensures
        r@.command == "get_document_stats"@,
        r@.params == None::<Seq<(Seq<char>, ParamModel)>>,
{
    without_params("get_document_stats")
}

/// Answers `question` from the ingested documents.
pub fn ask_question(question: String) -> (r: CommandRequest)
    ensures
        r@.command == "answer_question"@,
        r@.params == Some(seq![("question"@, ParamModel::Text(question@))]),
{
    with_param("answer_question", "question", ParamValue::Text(question))
}

/// The limit actually asked for: the caller's, else the default.
pub open spec fn history_limit(limit: Option<i32>) -> int {
    match limit {
        Some(n) => n as int,
        None => DEFAULT_HISTORY_LIMIT as int,
    }
}

/// Fetches the latest chat messages, at most `limit` of them (50 by default).
pub fn get_chat_history(limit: Option<i32>) -> (r: CommandRequest)
    ensures
        r@.command == "get_chat_history"@,
        r@.params == Some(seq![("limit"@, ParamModel::Int(history_limit(limit)))]),
{
    let n: i32 = match limit {
        Some(n) => n,
        None => DEFAULT_HISTORY_LIMIT,
    };
    with_param("get_chat_history", "limit", ParamValue::Int(n))
}

/// Clears the chat history.
pub fn clear_chat_history() -> (r: CommandRequest)
    ensures
        r@.command == "clear_chat_history"@,
        r@.params == None::<Seq<(Seq<char>, ParamModel)>>,
{
    without_params("clear_chat_history")
}

/// Reads the AI settings.
pub fn get_ai_settings() -> (r: CommandRequest)
    ensures
        r@.command == "get_ai_settings"@,
        r@.params == None::<Seq<(Seq<char>, ParamModel)>>,
{
    without_params("get_ai_settings")
}

/// Saves the AI settings, given as text.
pub fn save_ai_settings(settings: String) -> (r: CommandRequest)
    ensures
        r@.command == "save_ai_settings"@,
        r@.params == Some(seq![("settings"@, ParamModel::Text(settings@))]),
{
    with_param("save_ai_settings", "settings", ParamValue::Text(settings))
}

/// Asks whether the local model server is installed.
pub fn check_ollama_installed() -> (r: CommandRequest)
    ensures
        r@.command == "check_ollama_installed"@,
        r@.params == None::<Seq<(Seq<char>, ParamModel)>>,
{
    without_params("check_ollama_installed")
}

/// Lists the local models.
pub fn get_ollama_models() -> (r: CommandRequest)
    ensures
        r@.command == "get_ollama_models"@,
        r@.params == None::<Seq<(Seq<char>, ParamModel)>>,
{
    without_params("get_ollama_models")
}

/// Installs the local model `model_name`.
pub fn install_ollama_model(model_name: String) -> (r: CommandRequest)
    ensures
        r@.command == "install_ollama_model"@,
        r@.params == Some(seq![("model_name"@, ParamModel::Text(model_name@))]),
{
    with_param("install_ollama_model", "model_name", ParamValue::Text(model_name))
}

/// Reports vector-store statistics.
pub fn get_vector_stats() -> (r: CommandRequest)
    ensures
        r@.command == "get_vector_stats"@,
        r@.params == None::<Seq<(Seq<char>, ParamModel)>>,
{
    without_params("get_vector_stats")
}

/// Empties the vector store.
pub fn reset_vector_store() -> (r: CommandRequest)
    ensures
        r@.command == "reset_vector_store"@,
        r@.params == None::<Seq<(Seq<char>, ParamModel)>>,
{
    without_params("reset_vector_store")
}

/// The fixed license record: licensing is not checked yet.
pub open spec fn license_record() -> Seq<char> {
    "{\"valid\": true, \"email\": \"user@example.com\", \"tier\": \"pro\"}"@
}

/// Reports the license: always the fixed, valid record, without the engine.
pub fn get_license_info() -> (r: Result<String, String>)
    ensures
        r matches Ok(t) && t@ == license_record(),
        r matches Ok(t) && t@.subrange(0, 14) == "{\"valid\": true"@,
{
    let t = String::from_str("{\"valid\": true, \"email\": \"user@example.com\", \"tier\": \"pro\"}");
    proof {
        reveal_strlit("{\"valid\": true, \"email\": \"user@example.com\", \"tier\": \"pro\"}");
        reveal_strlit("{\"valid\": true");
        assert(t@.subrange(0, 14) =~= "{\"valid\": true"@);
    }
    Ok(t)
}

/// Removes the license: nothing to remove yet, so it always succeeds.
pub fn remove_license() -> (r: Result<(), String>)
    ensures
        r is Ok,
{
    Ok(())
}

} // verus!
