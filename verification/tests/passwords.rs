use armoire::passwords::{CharacterClasses, Characters, Generator};

const SPECIALS: &str = "!@#$%^&*()-_=+[]{}|;:',.<>?/`~";

#[test]
fn length_0() {
    let generator = Generator::new(Characters::NUMERIC | Characters::LOWERCASE);
    assert_eq!(generator.generate(0).unwrap(), "");
}

#[test]
fn length_10() {
    let generator = Generator::new(Characters::NUMERIC | Characters::LOWERCASE);
    let password = generator.generate(10).unwrap();
    assert_eq!(password.len(), 10);
}

#[test]
fn length_100() {
    let generator = Generator::new(Characters::NUMERIC | Characters::LOWERCASE);
    let password = generator.generate(100).unwrap();
    assert_eq!(password.len(), 100);
}

#[test]
fn no_characters() {
    let generator = Generator::new(Characters::empty());
    assert_eq!(generator.generate(16).unwrap(), "");
}

#[test]
fn numeric_only() {
    let generator = Generator::new(Characters::NUMERIC);
    let password = generator.generate(16).unwrap();
    assert_eq!(password.len(), 16);
    assert!(password.chars().all(|c| c.is_ascii_digit()));
}

#[test]
fn lowercase_only() {
    let generator = Generator::new(Characters::LOWERCASE);
    let password = generator.generate(16).unwrap();
    assert_eq!(password.len(), 16);
    assert!(password.chars().all(|c| c.is_ascii_lowercase()));
}

#[test]
fn uppercase_only() {
    let generator = Generator::new(Characters::UPPERCASE);
    let password = generator.generate(16).unwrap();
    assert_eq!(password.len(), 16);
    assert!(password.chars().all(|c| c.is_ascii_uppercase()));
}

#[test]
fn special_only() {
    let generator = Generator::new(Characters::SPECIAL);
    let password = generator.generate(16).unwrap();
    assert_eq!(password.len(), 16);
    assert!(
        password
            .chars()
            .all(|c| "!@#$%^&*()-_=+[]{}|;:',.<>?/`~".contains(c))
    );
}

#[test]
fn space_only() {
    let generator = Generator::new(Characters::SPACE);
    let password = generator.generate(16).unwrap();
    assert_eq!(password.len(), 16);
    assert!(password.chars().all(|c| c == ' '));
}

#[test]
fn upper_and_lower_only() {
    let generator = Generator::new(Characters::UPPERCASE | Characters::LOWERCASE);
    let password = generator.generate(16).unwrap();
    assert_eq!(password.len(), 16);
    assert!(password.chars().all(|c| c.is_ascii_alphabetic()));
}

#[test]
fn alphanumeric_only() {
    let generator =
        Generator::new(Characters::NUMERIC | Characters::LOWERCASE | Characters::UPPERCASE);
    let password = generator.generate(16).unwrap();
    assert_eq!(password.len(), 16);
    assert!(password.chars().all(|c| c.is_ascii_alphanumeric()));
}

#[test]
fn all_characters() {
    let generator = Generator::default();
    let password = generator.generate(16).unwrap();
    assert_eq!(password.len(), 16);
    assert!(
        password
            .chars()
            .all(|c| c.is_ascii() || "!@#$%^&*()-_=+[]{}|;:',.<>?/`~ ".contains(c))
    );
}

#[test]
fn default_enables_every_class() {
    let generator = Generator::default();
    assert_eq!(generator.characters(), Characters::all());
    assert_eq!(Characters::all(), 31);
    assert!(generator.characters().contains(Characters::SPECIAL));
    assert!(generator.characters().contains(Characters::SPACE));
}

#[test]
fn union_enables_both_classes() {
    let flags = Characters::LOWERCASE | Characters::UPPERCASE;
    assert!(flags.contains(Characters::LOWERCASE));
    assert!(flags.contains(Characters::UPPERCASE));
    assert!(!flags.contains(Characters::NUMERIC));
    assert!(!flags.contains(Characters::LOWERCASE | Characters::NUMERIC));
    assert!(flags.contains(Characters::empty()));
    assert!(Characters::empty().is_empty());
    assert!(!flags.is_empty());
}

#[test]
fn set_characters_replaces_classes() {
    let mut generator = Generator::new(Characters::NUMERIC);
    generator.set_characters(Characters::SPACE);
    assert_eq!(generator.characters(), Characters::SPACE);
    assert_eq!(generator.generate(5).unwrap(), "     ");
}

#[test]
fn generate_from_picks_the_drawn_characters() {
    // Enabled classes in order: numeric (position 0), uppercase (position 1),
    // special (position 2).
    let generator =
        Generator::new(Characters::NUMERIC | Characters::UPPERCASE | Characters::SPECIAL);
    let draws = vec![(1, 2), (0, 7), (2, 0), (2, 29), (1, 25), (0, 0)];
    assert_eq!(generator.generate_from(&draws), "C7!~Z0");
    assert_eq!(generator.generate_from(&vec![]), "");
}

#[test]
fn generate_from_with_space_and_lowercase() {
    let generator = Generator::new(Characters::SPACE | Characters::LOWERCASE);
    let draws = vec![(0, 0), (1, 0), (0, 25), (0, 11)];
    assert_eq!(generator.generate_from(&draws), "a zl");
}

#[test]
fn generate_uses_only_enabled_classes() {
    let generator = Generator::new(Characters::SPECIAL | Characters::NUMERIC);
    let password = generator.generate(200).unwrap();
    assert_eq!(password.chars().count(), 200);
    assert!(password
        .chars()
        .all(|c| c.is_ascii_digit() || SPECIALS.contains(c)));
}
