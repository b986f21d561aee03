use credvault::generator::PasswordGenerator;

#[test]
fn test_default() {
    let generator = PasswordGenerator::default();
    assert_eq!(generator.symbols, true);
    assert_eq!(generator.letters, true);
    assert_eq!(generator.numbers, true);
    assert_eq!(generator.length, 32);
}

#[test]
fn test_default_set() {
    let generator = PasswordGenerator::default();
    let set = "abcdefghijklmnopqrstuvwxyzABCDEFGHIJKLMNOPQRSTUVWXYZ!@#$%^&*()-_+/0123456789"
        .chars()
        .collect::<Vec<char>>();

    let password: String = generator.generate(None);

    password
        .chars()
        .into_iter()
        .for_each(|char| assert!(set.contains(&char)));
}

#[test]
fn test_numbers() {
    let generator = PasswordGenerator {
        length: 32,
        numbers: true,
        symbols: false,
        letters: false,
    };
    let set = "0123456789".chars().collect::<Vec<char>>();

    let password: String = generator.generate(None);

    password
        .chars()
        .into_iter()
        .for_each(|char| assert!(set.contains(&char)));
}

#[test]
fn test_letters() {
    let generator = PasswordGenerator {
        length: 32,
        numbers: false,
        symbols: false,
        letters: true,
    };
    let set = "abcdefghijklmnopqrstuvwxyzABCDEFGHIJKLMNOPQRSTUVWXYZ"
        .chars()
        .collect::<Vec<char>>();

    let password: String = generator.generate(None);

    password
        .chars()
        .into_iter()
        .for_each(|char| assert!(set.contains(&char)));
}

#[test]
fn test_symbols() {
    let generator = PasswordGenerator {
        length: 32,
        numbers: false,
        symbols: true,
        letters: false,
    };
    let set = "!@#$%^&*()-_+/".chars().collect::<Vec<char>>();

    let password: String = generator.generate(None);

    password
        .chars()
        .into_iter()
        .for_each(|char| assert!(set.contains(&char)));
}

#[test]
fn test_length() {
    let generator = PasswordGenerator {
        length: 26,
        numbers: true,
        symbols: true,
        letters: true,
    };

    let password: String = generator.generate(None);
    assert_eq!(26, password.len());
}

#[test]
fn test_custom() {
    let generator = PasswordGenerator::default();
    let password = generator.generate(Some(PasswordGenerator {
        length: 24,
        symbols: true,
        letters: true,
        numbers: true,
    }));

    assert_eq!(24, password.len());
}

#[test]
fn characters_come_letters_digits_symbols() {
    let all = PasswordGenerator::default().characters();
    let text: String = all.iter().collect();
    assert_eq!(
        text,
        "abcdefghijklmnopqrstuvwxyzABCDEFGHIJKLMNOPQRSTUVWXYZ0123456789!@#$%^&*()-_+/"
    );
    assert_eq!(all.len(), 76);
    let digits = PasswordGenerator { numbers: true, letters: false, symbols: false, length: 1 };
    assert_eq!(digits.characters(), "0123456789".chars().collect::<Vec<char>>());
    let none = PasswordGenerator { numbers: false, letters: false, symbols: false, length: 1 };
    assert!(none.characters().is_empty());
}

#[test]
fn numbers_pick_by_remainder() {
    let digits = PasswordGenerator { numbers: true, letters: false, symbols: false, length: 4 };
    assert_eq!(digits.generate_from(None, &vec![0, 9, 10, 255]), "0905");
    let all = PasswordGenerator::default();
    assert_eq!(all.generate_from(None, &vec![0, 25, 26, 51, 52, 61, 62, 75, 76, 255]), "azAZ09!/aB");
}

#[test]
fn given_settings_win_over_own() {
    let own = PasswordGenerator { numbers: false, letters: true, symbols: false, length: 3 };
    let given = PasswordGenerator { numbers: true, letters: false, symbols: false, length: 2 };
    assert_eq!(own.generate_from(Some(given), &vec![1, 2]), "12");
    assert_eq!(own.generate_from(None, &vec![1, 2]), "bc");
    assert_eq!(own.generate(Some(given)).len(), 2);
}

#[test]
fn no_set_gives_the_empty_password() {
    let none = PasswordGenerator { numbers: false, letters: false, symbols: false, length: 32 };
    assert_eq!(none.generate(None), "");
    assert_eq!(none.generate_from(None, &vec![1, 2, 3]), "");
    let huge = PasswordGenerator { numbers: false, letters: false, symbols: false, length: usize::MAX };
    assert_eq!(huge.generate(None), "");
}

#[test]
fn length_zero_gives_the_empty_password() {
    let generator = PasswordGenerator { numbers: true, letters: true, symbols: true, length: 0 };
    assert_eq!(generator.generate(None), "");
}
