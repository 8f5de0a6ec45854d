//! The opening of the conversation with the provider: the cast of the story,
//! the standing instructions, and the instruction to go on after each part.

use crate::producer::{messages_view, ChatMessage, PhaseView, Producer, Role};
use crate::text::{join_words, joined, strings_view};
use vstd::prelude::*;
use vstd::string::*;

verus! {

/// The number of characters the story features.
pub const CAST_SIZE: usize = 3;

/// The characters the cast is drawn from.
pub open spec fn character_pool() -> Seq<Seq<char>> {
    seq![
        "Jedu"@,
        "Eli"@,
        "Dash"@,
        "Herobrine"@,
        "Steve"@,
        "Alex"@,
        "Notch"@,
        "Jeb"@,
        "Mikey and JJ"@,
        "Dave the Villager"@,
        "Sir Hogarth"@,
        "Gromp"@,
        "Clyde"@,
        "Arch-Illager"@,
        "Villager"@,
        "Baby Zeke"@,
    ]
}

/// The character at position `i` of the pool.
pub fn pool_character(i: usize) -> (r: &'static str)
    requires
        i < character_pool().len(),
    ensures
        r@ == character_pool()[i as int],
{
    match i {
        0 => "Jedu",
        1 => "Eli",
        2 => "Dash",
        3 => "Herobrine",
        4 => "Steve",
        5 => "Alex",
        6 => "Notch",
        7 => "Jeb",
        8 => "Mikey and JJ",
        9 => "Dave the Villager",
        10 => "Sir Hogarth",
        11 => "Gromp",
        12 => "Clyde",
        13 => "Arch-Illager",
        14 => "Villager",
        _ => "Baby Zeke",
    }
}

/// The standing instructions; the cast stands in for `{}`.
pub open spec fn instruction_templates() -> Seq<Seq<char>> {
    seq![
        "You are a Minecraft fan who is familiar with the Minecraft world and its characters and enjoy telling stories about it."@,
        "You are also a typing teacher who is teaching home row key lessons to a second grader."@,
        "Compose a narrative set in the Minecraft world featuring characters named {} from Minecraft Books and YouTube."@,
        "Your task is to weave an engaging quest filled with courage, strategic maneuvers, and high stakes."@,
        "Use descriptive language full of adjectives, colors, and visualizations."@,
        "After each response the user will prompt you to continue the story.  Add in exciting plot twists."@,
        "The reader of the story is a Minecraft fan who is familiar with the Minecraft world and its characters."@,
        "The reader is also familiar with the Minecraft books and YouTube series."@,
        "The reader is nine years old and in the second grade, be sure to make it age appropriate and with a vocabulary appropriate as well."@,
        "The story can happen in the Overworld, in the Nether, the End, or in other locations in the Minecraft world."@,
        "Use mobs such as creepers, zombies, skeletons, and endermen, piglins, evokers, illagers, pillagers, and others to add excitement to the story."@,
        "The reader will be typing the story to practice typing, so emphasize the home keys of the keyboard: 'a', 'b', 'c', 'd', 'e', 'f', 'g', 'h', 'i', 'j', 'k', 'l'."@,
        "The output will also be fed into DALL-E, a neural network that generates images from text descriptions.  Try to make the story as visual as possible, but avoid words like 'naked' or other words that may be rejected for safety reasons."@,
        "Responses should be no longer than 50 words long."@,
        "Do not respond to the user's prompts, instead, use the prompts to continue the story."@,
    ]
}

/// The standing instruction at position `i`.
pub fn instruction_template(i: usize) -> (r: &'static str)
    requires
        i < instruction_templates().len(),
    ensures
        r@ == instruction_templates()[i as int],
{
    match i {
        0 => "You are a Minecraft fan who is familiar with the Minecraft world and its characters and enjoy telling stories about it.",
        1 => "You are also a typing teacher who is teaching home row key lessons to a second grader.",
        2 => "Compose a narrative set in the Minecraft world featuring characters named {} from Minecraft Books and YouTube.",
        3 => "Your task is to weave an engaging quest filled with courage, strategic maneuvers, and high stakes.",
        4 => "Use descriptive language full of adjectives, colors, and visualizations.",
        5 => "After each response the user will prompt you to continue the story.  Add in exciting plot twists.",
        6 => "The reader of the story is a Minecraft fan who is familiar with the Minecraft world and its characters.",
        7 => "The reader is also familiar with the Minecraft books and YouTube series.",
        8 => "The reader is nine years old and in the second grade, be sure to make it age appropriate and with a vocabulary appropriate as well.",
        9 => "The story can happen in the Overworld, in the Nether, the End, or in other locations in the Minecraft world.",
        10 => "Use mobs such as creepers, zombies, skeletons, and endermen, piglins, evokers, illagers, pillagers, and others to add excitement to the story.",
        11 => "The reader will be typing the story to practice typing, so emphasize the home keys of the keyboard: 'a', 'b', 'c', 'd', 'e', 'f', 'g', 'h', 'i', 'j', 'k', 'l'.",
        12 => "The output will also be fed into DALL-E, a neural network that generates images from text descriptions.  Try to make the story as visual as possible, but avoid words like 'naked' or other words that may be rejected for safety reasons.",
        13 => "Responses should be no longer than 50 words long.",
        _ => "Do not respond to the user's prompts, instead, use the prompts to continue the story.",
    }
}

/// The cast as it appears in the instructions: each name followed by `", "`.
pub open spec fn cast_text(names: Seq<Seq<char>>) -> Seq<char>
    decreases names.len(),
{
    if names.len() == 0 {
        Seq::empty()
    } else {
        cast_text(names.drop_last()) + names.last() + ", "@
    }
}

/// Writes the cast as it appears in the instructions.
pub fn cast_list(names: &Vec<String>) -> (r: String)
    ensures
        r@ == cast_text(strings_view(names@)),
{
    let mut r = String::new();
    let mut i: usize = 0;
    while i < names.len()
        invariant
            i <= names.len(),
            r@ == cast_text(strings_view(names@.subrange(0, i as int))),
        decreases names.len() - i,
    {
        assert(strings_view(names@.subrange(0, i + 1)).drop_last()
            =~= strings_view(names@.subrange(0, i as int)));
        r.append(names[i].as_str());
        r.append(", ");
        i = i + 1;
    }
    assert(names@.subrange(0, i as int) =~= names@);
    r
}

/// Relies on `rand::seq::SliceRandom::choose_multiple` with the thread-local
/// generator: `min(amount, pool.len())` elements of `pool` at distinct
/// positions, chosen at random.
#[verifier::external_body]
fn choose_multiple(pool: &Vec<usize>, amount: usize) -> (r: Vec<usize>)
    ensures
        r.len() == if amount < pool.len() { amount } else { pool.len() },
        forall|i: int| 0 <= i < r.len() ==> pool@.contains(#[trigger] r@[i]),
        pool@.no_duplicates() ==> r@.no_duplicates(),
{
    rand::seq::SliceRandom::choose_multiple(pool.as_slice(), &mut rand::thread_rng(), amount).copied().collect()
}

/// Draws the cast of a story: `CAST_SIZE` different characters of the pool, at
/// random.
pub fn draw_cast() -> (r: Vec<String>)
    ensures
        r.len() == CAST_SIZE,
        forall|i: int| 0 <= i < r.len() ==> character_pool().contains(#[trigger] r@[i]@),
        forall|i: int, j: int| 0 <= i < j < r.len() ==> r@[i]@ != r@[j]@,
{
    let mut positions: Vec<usize> = Vec::new();
    let mut i: usize = 0;
    while i < 16
        invariant
            i <= 16,
            positions@ == Seq::new(i as nat, |j: int| j as usize),
        decreases 16 - i,
    {
        positions.push(i);
        i = i + 1;
    }
    assert(positions@.no_duplicates());
    let chosen = choose_multiple(&positions, CAST_SIZE);
    let mut cast: Vec<String> = Vec::new();
    let mut k: usize = 0;
    while k < chosen.len()
        invariant
            k <= chosen.len(),
            chosen.len() == CAST_SIZE,
            chosen@.no_duplicates(),
            forall|j: int| 0 <= j < chosen.len() ==> #[trigger] chosen@[j] < 16,
            cast.len() == k,
            forall|j: int| 0 <= j < k ==> #[trigger] cast@[j]@ == character_pool()[chosen@[j] as int],
        decreases chosen.len() - k,
    {
        cast.push(String::from_str(pool_character(chosen[k])));
        k = k + 1;
    }
    assert forall|a: int, b: int| 0 <= a < b < cast.len() implies cast@[a]@ != cast@[b]@ by {
        assert(chosen@[a] != chosen@[b]);
        pool_names_differ(chosen@[a] as int, chosen@[b] as int);
    }
    assert forall|a: int| 0 <= a < cast.len() implies character_pool().contains(#[trigger] cast@[a]@) by {
        assert(character_pool()[chosen@[a] as int] == cast@[a]@);
    }
    cast
}

/// The characters of the pool have different names.
proof fn pool_names_differ(a: int, b: int)
    requires
        0 <= a < character_pool().len(),
        0 <= b < character_pool().len(),
        a != b,
    ensures
        character_pool()[a] != character_pool()[b],
{
    reveal_strlit("Jedu");
    reveal_strlit("Eli");
    reveal_strlit("Dash");
    reveal_strlit("Herobrine");
    reveal_strlit("Steve");
    reveal_strlit("Alex");
    reveal_strlit("Notch");
    reveal_strlit("Jeb");
    reveal_strlit("Mikey and JJ");
    reveal_strlit("Dave the Villager");
    reveal_strlit("Sir Hogarth");
    reveal_strlit("Gromp");
    reveal_strlit("Clyde");
    reveal_strlit("Arch-Illager");
    reveal_strlit("Villager");
    reveal_strlit("Baby Zeke");
    let key = |s: Seq<char>| (s.len(), s[0]);
    let keys = seq![(4nat, 'J'), (3nat, 'E'), (4nat, 'D'), (9nat, 'H'), (5nat, 'S'), (4nat, 'A'), (5nat, 'N'), (3nat, 'J'), (12nat, 'M'), (17nat, 'D'), (11nat, 'S'), (5nat, 'G'), (5nat, 'C'), (12nat, 'A'), (8nat, 'V'), (9nat, 'B')];
    assert forall|i: int| 0 <= i < 16 implies #[trigger] key(character_pool()[i]) == keys[i] by {
        assert(character_pool()[i].len() > 0);
    }
    assert(key(character_pool()[a]) != key(character_pool()[b]));
}

/// A formatx error, carried as it came.
#[verifier::external_type_specification]
#[verifier::external_body]
pub struct ExFormatxError(formatx::Error);

/// `s` holds no brace.
pub open spec fn brace_free(s: Seq<char>) -> bool {
    forall|i: int| 0 <= i < s.len() ==> s[i] != '{' && s[i] != '}'
}

/// `template` is brace-free text `before`, an empty placeholder `{}`, then
/// brace-free text `after`.
pub open spec fn one_slot(template: Seq<char>, before: Seq<char>, after: Seq<char>) -> bool {
    template == before + "{}"@ + after && brace_free(before) && brace_free(after)
}

/// Relies on formatx's `Template::new`, `Renderer::arg` and `Renderer::finish`
/// (what the `formatx!` macro expands to), on the two shapes of template this
/// library uses: brace-free text is kept as it is, and a bare `{}` between
/// brace-free text is replaced by `arg` as it is.
#[verifier::external_body]
fn render_template(template: &str, arg: &str) -> (r: Result<String, formatx::Error>)
    requires
        brace_free(template@) || exists|before: Seq<char>, after: Seq<char>|
            one_slot(template@, before, after),
    ensures
        brace_free(template@) ==> r is Ok && r->Ok_0@ == template@,
        forall|before: Seq<char>, after: Seq<char>|
            #[trigger] one_slot(template@, before, after) ==> r is Ok && r->Ok_0@ == before + arg@ + after,
{
    match formatx::Template::new(template) {
        Ok(t) => {
            let mut renderer = t.render();
            renderer.arg(arg);
            renderer.finish()
        },
        Err(e) => Err(e),
    }
}

/// The text around the placeholder of the one standing instruction that names
/// the cast.
pub open spec fn cast_slot_before() -> Seq<char> {
    "Compose a narrative set in the Minecraft world featuring characters named "@
}

pub open spec fn cast_slot_after() -> Seq<char> {
    " from Minecraft Books and YouTube."@
}

/// The position of the standing instruction that names the cast.
pub const CAST_SLOT: usize = 2;

/// Every standing instruction is brace-free, but the one that names the cast,
/// which has one placeholder.
proof fn instruction_shapes()
    ensures
        forall|i: int| 0 <= i < instruction_templates().len() && i != CAST_SLOT ==> #[trigger] brace_free(instruction_templates()[i]),
        one_slot(instruction_templates()[CAST_SLOT as int], cast_slot_before(), cast_slot_after()),
        instruction_templates().len() == 15,
{
    reveal_strlit("You are a Minecraft fan who is familiar with the Minecraft world and its characters and enjoy telling stories about it.");
    reveal_strlit("You are also a typing teacher who is teaching home row key lessons to a second grader.");
    reveal_strlit("Compose a narrative set in the Minecraft world featuring characters named {} from Minecraft Books and YouTube.");
    reveal_strlit("Your task is to weave an engaging quest filled with courage, strategic maneuvers, and high stakes.");
    reveal_strlit("Use descriptive language full of adjectives, colors, and visualizations.");
    reveal_strlit("After each response the user will prompt you to continue the story.  Add in exciting plot twists.");
    reveal_strlit("The reader of the story is a Minecraft fan who is familiar with the Minecraft world and its characters.");
    reveal_strlit("The reader is also familiar with the Minecraft books and YouTube series.");
    reveal_strlit("The reader is nine years old and in the second grade, be sure to make it age appropriate and with a vocabulary appropriate as well.");
    reveal_strlit("The story can happen in the Overworld, in the Nether, the End, or in other locations in the Minecraft world.");
    reveal_strlit("Use mobs such as creepers, zombies, skeletons, and endermen, piglins, evokers, illagers, pillagers, and others to add excitement to the story.");
    reveal_strlit("The reader will be typing the story to practice typing, so emphasize the home keys of the keyboard: 'a', 'b', 'c', 'd', 'e', 'f', 'g', 'h', 'i', 'j', 'k', 'l'.");
    reveal_strlit("The output will also be fed into DALL-E, a neural network that generates images from text descriptions.  Try to make the story as visual as possible, but avoid words like 'naked' or other words that may be rejected for safety reasons.");
    reveal_strlit("Responses should be no longer than 50 words long.");
    reveal_strlit("Do not respond to the user's prompts, instead, use the prompts to continue the story.");
    reveal_strlit("Compose a narrative set in the Minecraft world featuring characters named ");
    reveal_strlit(" from Minecraft Books and YouTube.");
    reveal_strlit("{}");
    assert(brace_free(instruction_templates()[0]));
    assert(brace_free(instruction_templates()[1]));
    assert(brace_free(instruction_templates()[3]));
    assert(brace_free(instruction_templates()[4]));
    assert(brace_free(instruction_templates()[5]));
    assert(brace_free(instruction_templates()[6]));
    assert(brace_free(instruction_templates()[7]));
    assert(brace_free(instruction_templates()[8]));
    assert(brace_free(instruction_templates()[9]));
    assert(brace_free(instruction_templates()[10]));
    assert(brace_free(instruction_templates()[11]));
    assert(brace_free(instruction_templates()[12]));
    assert(brace_free(instruction_templates()[13]));
    assert(brace_free(instruction_templates()[14]));
    assert(instruction_templates()[2] =~= cast_slot_before() + "{}"@ + cast_slot_after());
}

/// The standing instruction at `i` with `cast` in its placeholder, if it has one.
pub open spec fn instruction_text(i: int, cast: Seq<char>) -> Seq<char> {
    if i == CAST_SLOT {
        cast_slot_before() + cast + cast_slot_after()
    } else {
        instruction_templates()[i]
    }
}

/// The standing instructions with `cast` filled in, as system messages.
pub open spec fn instruction_messages(cast: Seq<char>) -> Seq<(Role, Seq<char>)> {
    Seq::new(instruction_templates().len(), |i: int| (Role::System, instruction_text(i, cast)))
}

/// Renders every standing instruction with `cast`.
pub fn standing_instructions(cast: &str) -> (r: Vec<ChatMessage>)
    ensures
        messages_view(r@) == instruction_messages(cast@),
{
    proof {
        instruction_shapes();
    }
    let mut messages: Vec<ChatMessage> = Vec::new();
    let mut i: usize = 0;
    while i < 15
        invariant
            i <= 15,
            instruction_templates().len() == 15,
            one_slot(instruction_templates()[CAST_SLOT as int], cast_slot_before(), cast_slot_after()),
            forall|j: int| 0 <= j < 15 && j != CAST_SLOT ==> #[trigger] brace_free(instruction_templates()[j]),
            messages.len() == i,
            forall|j: int| 0 <= j < i ==> #[trigger] messages@[j]@ == instruction_messages(cast@)[j],
        decreases 15 - i,
    {
        let template = instruction_template(i);
        let content = match render_template(template, cast) {
            Ok(content) => content,
            Err(_) => {
                // never taken: both shapes of instruction render
                proof {
                    if i == CAST_SLOT {
                        assert(one_slot(template@, cast_slot_before(), cast_slot_after()));
                    }
                    assert(false);
                }
                String::new()
            },
        };
        proof {
            if i == CAST_SLOT {
                assert(one_slot(template@, cast_slot_before(), cast_slot_after()));
            }
        }
        messages.push(ChatMessage { role: Role::System, content });
        i = i + 1;
    }
    assert(messages_view(messages@) =~= instruction_messages(cast@));
    messages
}

/// The request that opens the story, for `cast` in `language`.
pub open spec fn opening_text(cast: Seq<char>, language: Seq<char>) -> Seq<char> {
    "Start an exciting story set in Minecraft world with "@ + cast
        + ".  Use descriptive words and color with detailed imagery. Write it in "@ + language
        + " language.  Use no more than 50 words for each prompt."@
}

/// Writes the request that opens the story.
pub fn opening_request(cast: &str, language: &str) -> (r: String)
    ensures
        r@ == opening_text(cast@, language@),
{
    let mut r = String::from_str("Start an exciting story set in Minecraft world with ");
    r.append(cast);
    r.append(".  Use descriptive words and color with detailed imagery. Write it in ");
    r.append(language);
    r.append(" language.  Use no more than 50 words for each prompt.");
    r
}

/// The instruction to go on with the story in `language`.
pub open spec fn continue_text(language: Seq<char>) -> Seq<char> {
    "Continue story in "@ + language
        + " language.  Use no more than 50 words. Use descriptive words and color with detailed imagery. Do not respond to this directly."@
}

/// Writes the instruction to go on with the story.
pub fn continue_request(language: &str) -> (r: String)
    ensures
        r@ == continue_text(language@),
{
    let mut r = String::from_str("Continue story in ");
    r.append(language);
    r.append(
        " language.  Use no more than 50 words. Use descriptive words and color with detailed imagery. Do not respond to this directly.",
    );
    r
}

/// The opening conversation: the standing instructions, then the request that
/// opens the story.
pub open spec fn preamble(cast: Seq<char>, language: Seq<char>) -> Seq<(Role, Seq<char>)> {
    instruction_messages(cast).push((Role::User, opening_text(cast, language)))
}

/// The prompt for an image of `words`: a style, then the words.
pub open spec fn image_prompt_text(words: Seq<Seq<char>>) -> Seq<char> {
    joined(seq!["Minecraft style. "@] + words)
}

/// Writes the prompt for an image of `words`.
pub fn image_prompt(words: &Vec<String>) -> (r: String)
    ensures
        r@ == image_prompt_text(strings_view(words@)),
{
    let mut parts: Vec<String> = vec![String::from_str("Minecraft style. ")];
    let mut i: usize = 0;
    while i < words.len()
        invariant
            i <= words.len(),
            strings_view(parts@) =~= seq!["Minecraft style. "@] + strings_view(words@.subrange(0, i as int)),
        decreases words.len() - i,
    {
        let ghost before = parts@;
        parts.push(words[i].clone());
        assert(strings_view(parts@) =~= strings_view(before).push(words@[i as int]@));
        assert(strings_view(words@.subrange(0, i + 1)) =~= strings_view(words@.subrange(0, i as int)).push(
            words@[i as int]@,
        ));
        i = i + 1;
    }
    assert(words@.subrange(0, i as int) =~= words@);
    join_words(&parts)
}

impl Producer {
    /// A producer for a story with the characters `cast`, told in `language`:
    /// it opens with the standing instructions and the opening request.
    pub fn new(cast: &Vec<String>, language: &str) -> (r: Producer)
        ensures
            r@.history == preamble(cast_text(strings_view(cast@)), language@),
            r@.continue_prompt == continue_text(language@),
            r@.phase == PhaseView::AwaitText,
    {
        let names = cast_list(cast);
        let mut messages = standing_instructions(names.as_str());
        let ghost before = messages@;
        messages.push(ChatMessage { role: Role::User, content: opening_request(names.as_str(), language) });
        assert(messages_view(messages@) =~= messages_view(before).push(
            (Role::User, opening_text(names@, language@)),
        ));
        Producer::from_preamble(messages, continue_request(language))
    }
}

} // verus!
