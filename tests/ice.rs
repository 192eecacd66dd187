use d_id_stream::ice::{normalize, normalize_all, IceError, IceServerDescriptor, IceUrls};

fn stun(url: &str) -> IceServerDescriptor {
    IceServerDescriptor { urls: IceUrls::Stun(url.to_string()), username: None, credential: None }
}

fn turn(urls: &[&str], username: Option<&str>, credential: Option<&str>) -> IceServerDescriptor {
    IceServerDescriptor {
        urls: IceUrls::Turn(urls.iter().map(|u| u.to_string()).collect()),
        username: username.map(|u| u.to_string()),
        credential: credential.map(|c| c.to_string()),
    }
}

#[test]
fn stun_normalizes_to_one_entry_without_credentials() {
    let mut d = stun("stun:stun.l.google.com:19302");
    d.credential = Some("ignored".to_string());
    let entries = normalize(&d).unwrap();
    assert_eq!(entries.len(), 1);
    assert_eq!(entries[0].url, "stun:stun.l.google.com:19302");
    assert_eq!(entries[0].username, None);
    assert_eq!(entries[0].credential, None);
}

#[test]
fn turn_list_normalizes_to_one_entry_per_url_sharing_credential() {
    let d = turn(&["turn:a", "turn:b"], None, Some("x"));
    let entries = normalize(&d).unwrap();
    assert_eq!(entries.len(), 2);
    assert_eq!(entries[0].url, "turn:a");
    assert_eq!(entries[1].url, "turn:b");
    assert_eq!(entries[0].credential.as_deref(), Some("x"));
    assert_eq!(entries[1].credential.as_deref(), Some("x"));
}

#[test]
fn turn_entries_carry_username_and_credential() {
    let d = turn(&["turn:a", "turn:b", "turn:c"], Some("u"), Some("p"));
    let entries = normalize(&d).unwrap();
    assert_eq!(entries.len(), 3);
    for e in &entries {
        assert_eq!(e.username.as_deref(), Some("u"));
        assert_eq!(e.credential.as_deref(), Some("p"));
    }
}

#[test]
fn empty_turn_list_is_malformed() {
    let d = turn(&[], None, None);
    assert_eq!(normalize(&d).unwrap_err(), IceError::MalformedIceServer);
}

#[test]
fn normalize_all_concatenates_in_order() {
    let ds = vec![stun("stun:s"), turn(&["turn:a", "turn:b"], Some("u"), Some("x"))];
    let entries = normalize_all(&ds).unwrap();
    let urls: Vec<&str> = entries.iter().map(|e| e.url.as_str()).collect();
    assert_eq!(urls, vec!["stun:s", "turn:a", "turn:b"]);
    assert_eq!(entries[0].credential, None);
    assert_eq!(entries[2].credential.as_deref(), Some("x"));
}

#[test]
fn normalize_all_of_nothing_is_empty() {
    assert!(normalize_all(&vec![]).unwrap().is_empty());
}

#[test]
fn normalize_all_fails_on_any_malformed_descriptor() {
    let ds = vec![stun("stun:s"), turn(&[], None, None), stun("stun:t")];
    assert_eq!(normalize_all(&ds).unwrap_err(), IceError::MalformedIceServer);
}
