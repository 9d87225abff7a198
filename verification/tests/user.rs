use flashcards::card::Card;
use flashcards::user::Lang;
use flashcards::user::User;

const T0: u64 = 1_500_000_000;

fn create_user(name: String) -> User {
    User::new(name, Lang::FR, Lang::EN)
}

fn create_apple_card() -> Card {
    Card::new(String::from("apple"), String::from("pomme"), T0)
}

fn create_beach_card() -> Card {
    Card::new(String::from("beach"), String::from("plage"), T0)
}

#[test]
fn test_create_user() {
    let name = "Julien";
    let julien = create_user(String::from(name));

    assert_eq!(julien.name, String::from(name));
    assert_eq!(julien.learn, Lang::EN);
    assert_eq!(julien.cards.len(), 0);
}

#[test]
fn main_test_create_card() {
    let learn = "apple";
    let translation = "pomme";
    let card = Card::new(String::from(learn), String::from(translation), T0);

    assert_eq!(card.input_word, String::from(learn));
    assert_eq!(card.translation, String::from(translation));
    assert_eq!(card.level, 0);
    assert_eq!(card.repetition_count, 0);
}

#[test]
fn test_add_card_to_user() {
    let mut user = create_user(String::from("Julien"));
    let card = create_apple_card();
    user.add_card(card);

    assert_eq!(user.cards.len(), 1);
}

#[test]
fn main_test_word_revision_success() {
    let mut card = create_apple_card();
    let updated_at = card.created_at;

    card.upgrade(T0 + 10);

    assert_eq!(card.level, 1);
    assert_eq!(card.repetition_count, 1);
    assert_ne!(card.updated_at, updated_at);
}

#[test]
fn main_test_word_revision_failed() {
    let mut card = create_apple_card();
    let updated_at = card.created_at;

    card.upgrade(T0 + 10);

    assert_eq!(card.level, 1);

    card.downgrade(T0 + 20);

    assert_eq!(card.level, 0);
    assert_eq!(card.repetition_count, 2);
    assert_ne!(card.updated_at, updated_at);
}

#[test]
fn test_get_revision_list() {
    let mut user = create_user(String::from("julien"));
    let mut card1 = create_apple_card();
    let card2 = create_beach_card();

    card1.upgrade(T0);

    user.add_card(card1);
    user.add_card(card2);

    println!("{:#?}", user);

    assert_eq!(user.cards.len(), 2);
    assert_eq!(user.get_revisable_cards(T0).len(), 1);
}
