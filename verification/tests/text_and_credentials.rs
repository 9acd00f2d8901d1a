use black_box::credentials::{
    charset, db_password_from_contents, generate_mqtt_hash, generate_mqtt_password, generate_username,
    mqtt_hash_with_salt, PASS_LEN, SALT_LEN, USERNAME_LEN,
};
use black_box::text::{split, str_eq};

fn pieces(s: &str, sep: &str) -> Vec<String> {
    split(s, sep)
}

#[test]
fn split_on_slash_matches_std() {
    for (s, sep) in [
        ("registered/node1", "/"),
        ("a//b/", "/"),
        ("", "/"),
        ("no separator", "/"),
        ("addr::data::more", "::"),
        ("::", "::"),
        (":::", "::"),
        ("x::", "::"),
    ] {
        let ours = pieces(s, sep);
        let theirs: Vec<&str> = s.split(sep).collect();
        assert_eq!(ours, theirs, "splitting {:?} on {:?}", s, sep);
    }
}

#[test]
fn split_then_join_gives_back_the_text() {
    for s in ["a::b::c", "::lead", "trail::", "plain", ""] {
        assert_eq!(pieces(s, "::").join("::"), s);
    }
}

#[test]
fn str_eq_compares_characters() {
    assert!(str_eq("registered", "registered"));
    assert!(!str_eq("registered", "register"));
    assert!(!str_eq("abc", "abd"));
    assert!(str_eq("", ""));
    assert!(str_eq("héllo", "héllo"));
}

#[test]
fn charset_is_alphanumeric() {
    let cs = charset();
    assert_eq!(cs.len(), 62);
    assert_eq!(cs, b"ABCDEFGHIJKLMNOPQRSTUVWXYZabcdefghijklmnopqrstuvwxyz0123456789".to_vec());
}

#[test]
fn generated_password_has_length_and_charset() {
    for _ in 0..20 {
        let p = generate_mqtt_password().expect("entropy source");
        assert_eq!(p.chars().count(), PASS_LEN);
        assert!(p.chars().all(|c| c.is_ascii_alphanumeric()));
    }
}

#[test]
fn generated_username_has_length_and_charset() {
    let u = generate_username().expect("entropy source");
    assert_eq!(u.chars().count(), USERNAME_LEN);
    assert!(u.chars().all(|c| c.is_ascii_alphanumeric()));
}

#[test]
fn hash_with_known_salt() {
    let h = mqtt_hash_with_salt("secret", b"saltsaltsalt");
    assert_eq!(
        h,
        "PBKDF2$sha512$100000$c2FsdHNhbHRzYWx0$rOgwZwJPL0zvWo03wATE8lO0UT1kn8SDiNssKuX096CJO3EMz3wxizqFDC8gSs7gvci5dOTUqOy0uTKSwz0OJw=="
    );
}

#[test]
fn hash_pads_short_salts() {
    assert_eq!(
        mqtt_hash_with_salt("secret", b"a"),
        "PBKDF2$sha512$100000$YQ==$afTMInlrQOqFVJMUsG8ooY+nuHl2oQgyQHcD2P/7z2XXx8+WjJp4mJZQDXMQqWZqHcsIG8FuO6+7w7dhjJlKIA=="
    );
    assert_eq!(
        mqtt_hash_with_salt("secret", b"ab"),
        "PBKDF2$sha512$100000$YWI=$rgJReo3VKSjvCbq9+wY5MB9jBpL3BQNUMk7FbraJ0AYgqT2lJUth0aHDy4xjBCzJuS42kfqYbNbC2cnyPJw7cA=="
    );
}

#[test]
fn hash_depends_on_salt_and_password() {
    let a = mqtt_hash_with_salt("secret", b"saltsaltsalt");
    assert_eq!(a.len(), 126);
    let b = mqtt_hash_with_salt("secret", b"SALTSALTSALT");
    let c = mqtt_hash_with_salt("other", b"saltsaltsalt");
    assert_ne!(a, b);
    assert_ne!(a, c);
    assert!(!a.contains("secret"));
}

#[test]
fn generated_hash_has_mosquitto_form() {
    let h = generate_mqtt_hash("password").expect("system random generator");
    assert_eq!(h.len(), 126);
    let parts: Vec<&str> = h.split('$').collect();
    assert_eq!(parts.len(), 5);
    assert_eq!(parts[0], "PBKDF2");
    assert_eq!(parts[1], "sha512");
    assert_eq!(parts[2], "100000");
    // 12 bytes of salt are 16 base64 characters, 64 bytes of key are 88.
    assert_eq!(parts[3].len(), 16);
    assert_eq!(parts[4].len(), 88);
    assert_eq!(SALT_LEN, 12);
    let h2 = generate_mqtt_hash("password").unwrap();
    assert_ne!(h, h2, "each hash gets a fresh salt");
}

#[test]
fn db_password_is_trimmed() {
    assert_eq!(db_password_from_contents("  s3cret \n"), "s3cret");
    assert_eq!(db_password_from_contents("s3cret"), "s3cret");
    assert_eq!(db_password_from_contents("\t\n "), "");
    assert_eq!(db_password_from_contents(" a b "), "a b");
}
