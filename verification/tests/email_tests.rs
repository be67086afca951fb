use program_station::email::{Email, EmailError, CODE_HIGH, CODE_LOW};

#[test]
fn codes_store_and_verify() {
    let mut e = Email::new();
    assert_eq!(e.verify_verification_code("a@x.com", 123456), Err(EmailError::VerificationFailed));
    // Storing the first code of an address reports that none was pending, but stores it.
    assert_eq!(e.insert("a@x.com", 123456), Err(EmailError::InsertWithoutPrevious));
    assert_eq!(e.verify_verification_code("a@x.com", 123456), Ok(()));
    assert_eq!(e.verify_verification_code("a@x.com", 654321), Err(EmailError::VerificationFailed));
    assert_eq!(e.verify_verification_code("b@x.com", 123456), Err(EmailError::VerificationFailed));
    // A new code replaces the old one.
    assert_eq!(e.insert("a@x.com", 222222), Ok(()));
    assert_eq!(e.verify_verification_code("a@x.com", 123456), Err(EmailError::VerificationFailed));
    assert_eq!(e.verify_verification_code("a@x.com", 222222), Ok(()));
    // Other addresses keep their codes.
    let _ = e.insert("b@x.com", 333333);
    assert_eq!(e.remove("a@x.com"), Ok(()));
    assert_eq!(e.verify_verification_code("a@x.com", 222222), Err(EmailError::VerificationFailed));
    assert_eq!(e.verify_verification_code("b@x.com", 333333), Ok(()));
    assert_eq!(e.remove("a@x.com"), Err(EmailError::RemoveWithoutPrevious));
}

#[test]
fn store_like_a_hash_map() {
    let mut codes = Email::new();
    let mut model: std::collections::HashMap<&str, u32> = std::collections::HashMap::new();
    let keys = ["a", "b", "c", "编程"];
    for step in 0..40u32 {
        let k = keys[(step as usize * 7) % 4];
        if step % 3 == 2 {
            assert_eq!(codes.remove(k).is_ok(), model.remove(k).is_some());
        } else {
            assert_eq!(codes.insert(k, step).is_ok(), model.insert(k, step).is_some());
        }
        for k in keys {
            for guess in 0..40u32 {
                assert_eq!(codes.verify_verification_code(k, guess).is_ok(), model.get(k) == Some(&guess));
            }
        }
    }
}

#[test]
fn generated_codes_have_six_digits() {
    for _ in 0..1000 {
        let c = Email::generate_code();
        assert!(c >= CODE_LOW && c < CODE_HIGH);
        assert_eq!(c.to_string().len(), 6);
    }
}
