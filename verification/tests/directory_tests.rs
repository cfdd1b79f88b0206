use hostprobe::directory::{parse_hosts, DirectoryError};

#[test]
fn parses_named_host_entries_in_document_order() {
    let text = "[host.alpha]\n\
                ip = \"10.0.0.5\"\n\
                port = \"22\"\n\
                user = \"root\"\n\
                pass = \"wrong\"\n\
                [host.beta]\n\
                ip = \"203.0.113.1\"\n\
                port = \"9999\"\n\
                user = \"op\"\n\
                pass = \"secret\"\n";
    let hosts = parse_hosts(text).unwrap();
    assert_eq!(hosts.len(), 2);
    assert_eq!(hosts[0].address, "10.0.0.5");
    assert_eq!(hosts[0].port, "22");
    assert_eq!(hosts[0].username, "root");
    assert_eq!(hosts[0].credential, "wrong");
    assert_eq!(hosts[1].address, "203.0.113.1");
    assert_eq!(hosts[1].port, "9999");
    assert_eq!(hosts[1].username, "op");
    assert_eq!(hosts[1].credential, "secret");
}

#[test]
fn rejects_text_the_grammar_refuses() {
    let r = parse_hosts("this is [not toml");
    assert_eq!(r.unwrap_err(), DirectoryError::Unparsable);
}

#[test]
fn document_without_host_table_is_empty_directory() {
    let hosts = parse_hosts("[other]\nkey = \"value\"\n").unwrap();
    assert_eq!(hosts.len(), 0);
    let hosts = parse_hosts("").unwrap();
    assert_eq!(hosts.len(), 0);
}

#[test]
fn entry_missing_a_field_is_fatal_to_the_load() {
    let text = "[host.alpha]\n\
                ip = \"10.0.0.5\"\n\
                port = \"22\"\n\
                user = \"root\"\n";
    let r = parse_hosts(text);
    assert_eq!(r.unwrap_err(), DirectoryError::MalformedEntry);
}

#[test]
fn entry_with_non_string_field_is_fatal_to_the_load() {
    let text = "[host.alpha]\n\
                ip = \"10.0.0.5\"\n\
                port = 22\n\
                user = \"root\"\n\
                pass = \"pw\"\n";
    let r = parse_hosts(text);
    assert_eq!(r.unwrap_err(), DirectoryError::MalformedEntry);
}

#[test]
fn host_key_bound_to_non_table_is_fatal_to_the_load() {
    let r = parse_hosts("host = 3\n");
    assert_eq!(r.unwrap_err(), DirectoryError::MalformedEntry);
}
