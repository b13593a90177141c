use star_duel::card::Card;
use star_duel::chat::{ChatRecord, Role};
use star_duel::inventory::Inventory;
use star_duel::llm::{
    prompt_compact, prompt_prefix, prompt_role, prompt_story, Choice, CompletionResponse,
    SamplerKind,
};
use star_duel::player::PlayerTimer;

#[test]
fn model_text_is_the_first_choice() {
    let response = CompletionResponse {
        choices: vec![
            Choice { index: 0, text: " first".to_string() },
            Choice { index: 1, text: "second".to_string() },
        ],
        model: "m".to_string(),
    };
    assert_eq!(response.model_text(), " first");
}

#[test]
fn model_text_of_an_empty_answer_is_empty() {
    assert_eq!(CompletionResponse::default().model_text(), "");
    let response = CompletionResponse { choices: vec![], model: "m".to_string() };
    assert_eq!(response.model_text(), "");
}

#[test]
fn completion_response_clones() {
    let response = CompletionResponse {
        choices: vec![Choice { index: 3, text: "x".to_string() }],
        model: "m".to_string(),
    };
    let copy = response.clone();
    assert_eq!(copy.choices.len(), 1);
    assert_eq!(copy.choices[0].index, 3);
    assert_eq!(copy.choices[0].text, "x");
    assert_eq!(copy.model, "m");
}

#[test]
fn sampler_kind_defaults_to_nucleus() {
    assert_eq!(SamplerKind::default(), SamplerKind::Nucleus);
    assert_ne!(SamplerKind::Typical, SamplerKind::Nucleus);
}

fn talk() -> Vec<ChatRecord> {
    vec![
        ChatRecord::new(Role::Assistant(1), "  Welcome.\r\nSit down. "),
        ChatRecord::new(Role::actor(1, "Ann"), "Where am I?"),
        ChatRecord::new(Role::actor(1, "Ann"), "Who are you?\n"),
        ChatRecord::new(Role::System(1), "*Bob joins chat*"),
        ChatRecord::new(Role::actor(2, "Bob"), "Hello."),
    ]
}

#[test]
fn story_of_nothing_is_empty() {
    assert_eq!(prompt_story(&vec![]), "");
}

#[test]
fn story_names_each_speaker_and_joins_what_one_says() {
    assert_eq!(
        prompt_story(&talk()),
        "\n\nStellaris (AI): Welcome.\nSit down.\n\nAnn: Where am I?\nWho are you?\n\n\
         System: *Bob joins chat*\n\nBob: Hello."
    );
}

#[test]
fn story_of_a_record_without_role_continues_the_start() {
    let records = vec![
        ChatRecord::new(Role::Nobody, "once"),
        ChatRecord::new(Role::Transparent(1), "aside"),
    ];
    assert_eq!(prompt_story(&records), "\nonce\n\n: aside");
}

#[test]
fn prompt_role_ends_with_the_speaker() {
    assert_eq!(
        prompt_role(&talk()[..2].to_vec(), &Role::actor(2, " Bob ")),
        "\n\nStellaris (AI): Welcome.\nSit down.\n\nAnn: Where am I?\n\nBob:"
    );
    assert_eq!(prompt_role(&vec![], &Role::Assistant(9)), "\n\nStellaris:");
}

#[test]
fn prompt_prefix_appends_the_prefix() {
    assert_eq!(
        prompt_prefix(&talk()[1..2].to_vec(), " So, my answer is \""),
        "\n\nAnn: Where am I? So, my answer is \""
    );
}

#[test]
fn prompt_compact_has_no_empty_lines() {
    assert_eq!(
        prompt_compact(&talk()),
        "Stellaris (AI): Welcome.\nSit down.\nAnn: Where am I?\nWho are you?\n\
         System: *Bob joins chat*\nBob: Hello."
    );
}

#[test]
fn three_line_ends_in_a_row_leave_two() {
    let records = vec![ChatRecord::new(Role::actor(1, "Ann"), "a\n\n\nb")];
    assert_eq!(prompt_compact(&records), "Ann: a\n\nb");
}

#[test]
fn absorb_appends_what_is_new_by_identity() {
    let a = ChatRecord::new(Role::System(1), "a");
    let b = ChatRecord::new(Role::System(1), "b");
    let c = ChatRecord::new(Role::System(1), "c");
    let mut memory = vec![a.clone(), b.clone()];
    let mut changed = b.clone();
    changed.content = "changed".to_string();
    star_duel::llm::absorb(&mut memory, &vec![changed, c.clone(), a.clone(), c.clone()]);
    let contents: Vec<&str> = memory.iter().map(|record| record.content.as_str()).collect();
    assert_eq!(contents, vec!["a", "b", "c"]);
    assert!(star_duel::llm::remembers(&memory, c.id));
    assert!(!star_duel::llm::remembers(&memory, 0));
}

#[test]
fn first_and_last_turns_of_chat() {
    let opens: Vec<bool> = (0..9).map(star_duel::llm::opens_chat).collect();
    assert_eq!(opens, vec![true, true, false, false, false, false, false, false, false]);
    let closes: Vec<bool> = (0..9).map(star_duel::llm::closes_chat).collect();
    assert_eq!(closes, vec![false, false, false, false, false, false, true, true, false]);
}

#[test]
fn urgency_begins_with_two_duels_left() {
    assert!(star_duel::llm::is_urgent(&PlayerTimer(0)));
    assert!(star_duel::llm::is_urgent(&PlayerTimer(2)));
    assert!(!star_duel::llm::is_urgent(&PlayerTimer(3)));
}

#[test]
fn yes_is_found_anywhere() {
    assert!(star_duel::llm::says_yes(" So, my answer is \"Yes\"."));
    assert!(star_duel::llm::says_yes("Yes"));
    assert!(!star_duel::llm::says_yes(" So, my answer is \"No\"."));
    assert!(!star_duel::llm::says_yes("yes"));
    assert!(!star_duel::llm::says_yes(""));
}

#[test]
fn cards_by_name() {
    assert_eq!(star_duel::llm::card_named("Rock"), Some(Card::Rock));
    assert_eq!(star_duel::llm::card_named("Paper"), Some(Card::Paper));
    assert_eq!(star_duel::llm::card_named("Scissors"), Some(Card::Scissors));
    assert_eq!(star_duel::llm::card_named("rock"), None);
    assert_eq!(star_duel::llm::card_named(" Rock"), None);
}

#[test]
fn kinds_on_offer() {
    let kinds = |rock, paper, scissors| {
        star_duel::llm::offered_kinds(&Inventory { star: 1, coin: 1, rock, paper, scissors })
    };
    assert_eq!(kinds(2, 0, 9), vec![Card::Rock, Card::Scissors]);
    assert_eq!(kinds(1, 1, 1), vec![Card::Rock, Card::Paper, Card::Scissors]);
    assert_eq!(kinds(0, 3, 0), vec![Card::Paper]);
    assert!(kinds(0, 0, 0).is_empty());
}

#[test]
fn stop_words_for_both_sides() {
    let words = star_duel::llm::stop_words(
        &vec!["\n\n".to_string(), "\n".to_string()],
        Some("Ann"),
        Some("Bob"),
    );
    assert_eq!(
        words,
        vec![
            "\n\n",
            "\n",
            "Stellaris:",
            "System:",
            "\nUser:",
            "\nQ:",
            "\nAssistant:",
            "\nAI:",
            "\nAnn",
            "\n*Ann",
            "\n**Ann",
            "Ann:",
            "\nBob",
            "\n*Bob",
            "\n**Bob",
            "\n(Bob",
            "Bob:",
        ]
    );
    let alone = star_duel::llm::stop_words(&vec![], None, None);
    assert_eq!(
        alone,
        vec!["Stellaris:", "System:", "\nUser:", "\nQ:", "\nAssistant:", "\nAI:"]
    );
    let mine = star_duel::llm::stop_words(&vec![], Some("Ann"), None);
    assert_eq!(mine.len(), 10);
    assert_eq!(mine[9], "Ann:");
}

#[test]
fn fill_replaces_every_named_placeholder() {
    let template = "Hello {player}, I am {ai}. {player}, you have {star} star(s).";
    let named = star_duel::llm::fill(template, "player", "Ann");
    assert_eq!(named, "Hello Ann, I am {ai}. Ann, you have {star} star(s).");
    let all = star_duel::llm::fill(&star_duel::llm::fill(&named, "ai", "Stellaris"), "star", "3");
    assert_eq!(all, "Hello Ann, I am Stellaris. Ann, you have 3 star(s).");
    assert_eq!(star_duel::llm::fill("nothing here", "player", "Ann"), "nothing here");
    assert_eq!(star_duel::llm::fill("{}{x}{}", "", "-"), "-{x}-");
}
