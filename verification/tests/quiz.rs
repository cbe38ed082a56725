use kana_trainer::Game;
use kana_trainer::Kana;
use kana_trainer::Outcome;
use kana_trainer::QuizError;

fn kana(unicode: char, phonetic: &str) -> Kana {
    Kana { unicode, phonetic: phonetic.to_owned() }
}

fn two_kana() -> Vec<Kana> {
    vec![kana('あ', "a"), kana('い', "i")]
}

fn phonetic_of(dict: &[Kana], unicode: char) -> String {
    dict.iter()
        .find(|k| k.unicode == unicode)
        .expect("prompt not from the dictionary")
        .phonetic
        .clone()
}

#[test]
fn empty_dictionary_is_refused() {
    match Game::new(Vec::new()) {
        Err(e) => assert_eq!(e, QuizError::EmptyDictionary),
        Ok(_) => panic!("a session over an empty dictionary was built"),
    }
}

#[test]
fn answer_without_prompt_fails() {
    let mut game = Game::new(two_kana()).unwrap();
    assert_eq!(game.set_answer("a"), Err(QuizError::NoActivePrompt));
    game.reload();
    assert_eq!(game.set_answer("a"), Err(QuizError::NoActivePrompt));
    assert_eq!(game.rounds(), 0);
    assert_eq!(game.score(), 0);
}

#[test]
fn scenario_two_kana_one_miss() {
    let dict = two_kana();
    let mut game = Game::new(two_kana()).unwrap();
    game.reload();

    let first = game.get_question().expect("a fresh round has a prompt");
    let reading = phonetic_of(&dict, first);
    assert_eq!(game.set_answer(&reading), Ok(Outcome::Correct));
    assert_eq!(game.score(), 1);
    assert_eq!(game.rounds(), 1);

    let second = game.get_question().expect("one entry is still waiting");
    assert_ne!(second, first);
    assert_eq!(game.set_answer("x"), Ok(Outcome::Incorrect));
    assert_eq!(game.score(), 1);
    assert_eq!(game.rounds(), 2);

    let reading = phonetic_of(&dict, second);
    assert_eq!(game.set_answer(&reading), Ok(Outcome::Correct));
    assert_eq!(game.score(), 1);
    assert_eq!(game.rounds(), 2);
    assert!(!game.has_questions());
    assert_eq!(game.get_question(), None);
}

#[test]
fn draining_a_round_counts_every_entry_once() {
    let dict = vec![kana('か', "ka"), kana('き', "ki"), kana('く', "ku")];
    let mut game = Game::new(dict.clone()).unwrap();
    game.reload();

    let mut seen = Vec::new();
    while game.has_questions() {
        let prompt = game.get_question().expect("has_questions promised one");
        let reading = phonetic_of(&dict, prompt);
        assert_eq!(game.set_answer(&reading), Ok(Outcome::Correct));
        seen.push(prompt);
    }
    assert_eq!(seen.len(), dict.len());
    let mut expected: Vec<char> = dict.iter().map(|k| k.unicode).collect();
    let mut got = seen.clone();
    expected.sort();
    got.sort();
    assert_eq!(got, expected);
    assert_eq!(game.rounds(), dict.len());
    assert_eq!(game.score(), dict.len());
    assert_eq!(game.get_question(), None);
}

#[test]
fn wrong_tries_count_one_round_and_no_score() {
    let mut game = Game::new(vec![kana('ん', "n")]).unwrap();
    game.reload();
    assert_eq!(game.get_question(), Some('ん'));
    assert_eq!(game.set_answer("m"), Ok(Outcome::Incorrect));
    assert_eq!(game.set_answer("no"), Ok(Outcome::Incorrect));
    assert_eq!(game.set_answer(""), Ok(Outcome::Incorrect));
    assert_eq!(game.rounds(), 1);
    assert_eq!(game.score(), 0);
    assert_eq!(game.set_answer("n"), Ok(Outcome::Correct));
    assert_eq!(game.rounds(), 1);
    assert_eq!(game.score(), 0);
    assert!(!game.has_questions());
}

#[test]
fn same_prompt_until_answered_correctly() {
    let mut game = Game::new(two_kana()).unwrap();
    game.reload();
    let first = game.get_question().expect("a fresh round has a prompt");
    assert_eq!(game.get_question(), Some(first));
    assert_eq!(game.set_answer("not it"), Ok(Outcome::Incorrect));
    assert_eq!(game.get_question(), Some(first));
    assert_eq!(game.get_question(), Some(first));
}

#[test]
fn comparison_is_exact_and_case_sensitive() {
    let mut game = Game::new(vec![kana('あ', "a")]).unwrap();
    game.reload();
    game.get_question();
    assert_eq!(game.set_answer("A"), Ok(Outcome::Incorrect));
    assert_eq!(game.set_answer(" a"), Ok(Outcome::Incorrect));
    assert_eq!(game.set_answer("a "), Ok(Outcome::Incorrect));
    assert_eq!(game.set_answer("a"), Ok(Outcome::Correct));
    assert_eq!(game.score(), 0);
    assert_eq!(game.rounds(), 1);
}

#[test]
fn prompt_stays_available_while_active() {
    let mut game = Game::new(vec![kana('あ', "a")]).unwrap();
    game.reload();
    game.get_question();
    assert_eq!(game.set_answer("wrong"), Ok(Outcome::Incorrect));
    // The pool is empty, yet the unanswered prompt keeps the round open.
    assert!(game.has_questions());
    assert_eq!(game.set_answer("a"), Ok(Outcome::Correct));
    assert!(!game.has_questions());
}

#[test]
fn counters_accumulate_across_rounds() {
    let dict = two_kana();
    let mut game = Game::new(two_kana()).unwrap();
    for round in 1..=3usize {
        game.reload();
        while game.has_questions() {
            let prompt = game.get_question().unwrap();
            let reading = phonetic_of(&dict, prompt);
            assert_eq!(game.set_answer(&reading), Ok(Outcome::Correct));
        }
        assert_eq!(game.rounds(), 2 * round);
        assert_eq!(game.score(), 2 * round);
    }
}

#[test]
fn reset_stats_clears_only_the_counters() {
    let dict = two_kana();
    let mut game = Game::new(two_kana()).unwrap();
    game.reload();
    let prompt = game.get_question().unwrap();
    let reading = phonetic_of(&dict, prompt);
    assert_eq!(game.set_answer(&reading), Ok(Outcome::Correct));
    assert_eq!(game.rounds(), 1);
    game.reset_stats();
    assert_eq!(game.rounds(), 0);
    assert_eq!(game.score(), 0);
    // The round itself goes on: one entry is still in the pool.
    assert!(game.has_questions());
}

#[test]
fn shared_phonetics_are_accepted() {
    let dict = vec![kana('じ', "ji"), kana('ぢ', "ji")];
    let mut game = Game::new(dict.clone()).unwrap();
    game.reload();
    while game.has_questions() {
        game.get_question().unwrap();
        assert_eq!(game.set_answer("ji"), Ok(Outcome::Correct));
    }
    assert_eq!(game.rounds(), 2);
    assert_eq!(game.score(), 2);
}

#[test]
fn first_prompt_varies_across_rounds() {
    let mut game = Game::new(two_kana()).unwrap();
    let mut seen_a = false;
    let mut seen_i = false;
    for _ in 0..200 {
        game.reload();
        match game.get_question().unwrap() {
            'あ' => seen_a = true,
            'い' => seen_i = true,
            other => panic!("prompt {other} is not from the dictionary"),
        }
        if seen_a && seen_i {
            break;
        }
    }
    assert!(seen_a && seen_i, "the shuffle always drew the same first prompt");
}
