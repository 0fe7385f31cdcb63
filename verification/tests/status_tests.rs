use ollama_core::hostname::choose_hostname;
use ollama_core::status::{models_from_list_output, status_from_payload};
use ollama_core::text::{first_token_str, str_contains, str_eq, trim_str};

#[test]
fn transport_failure_reads_as_stopped_with_no_models() {
    let s = status_from_payload(None);
    assert!(!s.running);
    assert!(s.models.is_empty());
}

#[test]
fn a_valid_payload_lists_the_models() {
    let s = status_from_payload(Some(
        "{\"models\":[{\"name\":\"llama3:latest\"},{\"name\":\"mistral\"}]}",
    ));
    assert!(s.running);
    assert_eq!(s.models, vec!["llama3:latest".to_string(), "mistral".to_string()]);
}

#[test]
fn a_garbled_payload_reads_as_running_with_no_models() {
    let s = status_from_payload(Some("garbage ]["));
    assert!(s.running);
    assert!(s.models.is_empty());
}

#[test]
fn malformed_model_entries_are_skipped() {
    let s = status_from_payload(Some(
        "{\"models\":[{\"name\":\"a\"},{\"size\":3},\"odd\",{\"name\":\"c\"}]}",
    ));
    assert!(s.running);
    assert_eq!(s.models, vec!["a".to_string(), "c".to_string()]);
}

#[test]
fn list_output_yields_the_first_token_of_each_body_line() {
    let out = "NAME            SIZE   MODIFIED\nllama3:latest   4.7GB  2 days ago\nmistral         4.1GB  5 weeks ago\n";
    assert_eq!(
        models_from_list_output(out),
        vec!["llama3:latest".to_string(), "mistral".to_string()]
    );
}

#[test]
fn list_output_skips_blank_lines_and_handles_no_trailing_newline() {
    let out = "NAME SIZE\n\n   \nllama3 4GB";
    assert_eq!(models_from_list_output(out), vec!["llama3".to_string()]);
    assert!(models_from_list_output("").is_empty());
    assert!(models_from_list_output("NAME SIZE\n").is_empty());
}

#[test]
fn hostname_prefers_the_trimmed_file_content() {
    let h = choose_hostname(Some(" box1\n"), Some("envhost"), Some("cmdhost"));
    assert_eq!(h, "box1");
}

#[test]
fn hostname_falls_back_through_env_and_command() {
    assert_eq!(choose_hostname(Some("   "), Some("envhost"), None), "envhost");
    assert_eq!(choose_hostname(None, None, Some(" cmdhost \n")), "cmdhost");
    assert_eq!(choose_hostname(None, None, None), "ollama");
    // The environment value is taken as it stands, untrimmed.
    assert_eq!(choose_hostname(None, Some(" e "), None), " e ");
}

#[test]
fn text_utilities_behave_as_specified() {
    assert_eq!(trim_str("  a b \t\n"), "a b");
    assert_eq!(trim_str("   "), "");
    assert!(str_contains("llama3:latest", "llama3"));
    assert!(str_contains("abc", ""));
    assert!(!str_contains("ab", "abc"));
    assert!(str_eq("same", "same"));
    assert!(!str_eq("same", "Same"));
    assert_eq!(first_token_str("  tok rest"), Some("tok".to_string()));
    assert_eq!(first_token_str("   "), None);
}
