use flashcards::card::Card;

const T0: u64 = 1_500_000_000;

fn create_card() -> Card {
    Card::new(String::from("apple"), String::from("pomme"), T0)
}

#[test]
fn card_test_create_card() {
    let card = create_card();

    assert_eq!(card.input_word, String::from("apple"));
    assert_eq!(card.translation, String::from("pomme"));
    assert_eq!(card.level, 0);
    assert_eq!(card.repetition_count, 0);
}

#[test]
fn card_test_word_revision_success() {
    let mut card = create_card();
    let updated_at = card.created_at;

    card.upgrade(T0 + 10);

    assert_eq!(card.level, 1);
    assert_eq!(card.repetition_count, 1);
    assert_ne!(card.updated_at, updated_at);
}

#[test]
fn card_test_word_revision_failed() {
    let mut card = create_card();
    let updated_at = card.created_at;

    card.upgrade(T0 + 10);

    assert_eq!(card.level, 1);

    card.downgrade(T0 + 20);

    assert_eq!(card.level, 0);
    assert_eq!(card.repetition_count, 2);
    assert_ne!(card.updated_at, updated_at);
}
