use jute::entity::{Entity, EntityId, EntityIdError};

#[test]
fn test_entity_id() {
    let id = EntityId::new(Entity::Venv);
    assert_eq!(id.to_string().len(), 12 + 3);
    assert_eq!(id.to_string().chars().count(), 12 + 3);
    assert!(id.to_string().starts_with("ve-"));

    assert_eq!(id, id);
    assert_ne!(id, EntityId::new(Entity::Venv));
}

#[test]
fn test_entity_id_parse() {
    let id = EntityId::new(Entity::Venv);
    let parsed = id.to_string().parse::<EntityId>().unwrap();
    assert_eq!(id, parsed);
}

#[test]
fn test_entity_id_validation() {
    let parsed = "ve-1234567890".parse::<EntityId>();
    assert!(parsed.is_err());

    let parsed = "ve-1234567890ab".parse::<EntityId>();
    assert!(parsed.is_ok());
    let parsed = parsed.unwrap();
    assert_eq!(parsed.kind, Entity::Venv);
    assert_eq!(parsed.to_string(), "ve-1234567890ab");
}

#[test]
fn entity_prefix_is_ve() {
    assert_eq!(Entity::Venv.id_prefix(), "ve-");
    assert_eq!(EntityId::ID_LENGTH, 12);
    let id = EntityId::new(Entity::Venv);
    assert_eq!(id.kind(), Entity::Venv);
    assert_eq!(id.kind(), id.kind);
}

#[test]
fn generated_ids_use_digits_and_lowercase_letters() {
    for _ in 0..50 {
        let text = EntityId::new(Entity::Venv).to_string();
        let tail = &text[3..];
        assert_eq!(tail.len(), 12);
        assert!(tail.chars().all(|c| c.is_ascii_digit() || c.is_ascii_lowercase()));
    }
}

#[test]
fn entity_id_errors_tell_length_from_prefix() {
    assert_eq!(
        EntityId::parse("ve-short"),
        Err(EntityIdError::InvalidLength("ve-short".to_string()))
    );
    assert_eq!(
        EntityId::parse("ve-1234567890abc"),
        Err(EntityIdError::InvalidLength("ve-1234567890abc".to_string()))
    );
    assert_eq!(
        EntityId::parse("xx-1234567890ab"),
        Err(EntityIdError::InvalidPrefix("xx-1234567890ab".to_string()))
    );
    assert_eq!(EntityId::parse(""), Err(EntityIdError::InvalidPrefix(String::new())));
    assert_eq!(EntityId::parse("ve"), Err(EntityIdError::InvalidPrefix("ve".to_string())));
    assert_eq!(
        EntityIdError::InvalidLength("ve-1".to_string()).to_string(),
        "invalid entity ID length ve-1"
    );
    assert_eq!(
        EntityIdError::InvalidPrefix("foo".to_string()).to_string(),
        "invalid entity prefix foo"
    );
}

#[test]
fn entity_id_counts_bytes_not_characters() {
    // Six two-byte characters are twelve bytes.
    let text = "ve-éééééé";
    let parsed = EntityId::parse(text).unwrap();
    assert_eq!(parsed.to_string(), text);
    // Twelve two-byte characters are twenty-four bytes.
    assert!(EntityId::parse("ve-éééééééééééé").is_err());
}
