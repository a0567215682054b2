//! Requests to the transcription and refinement services: the prompts sent
//! to the language models, endpoint URLs, form fields and command lines.
//! The network and process calls themselves are made by the application;
//! this module decides what is sent.

use vstd::prelude::*;
use base64::Engine;
use vstd::string::StringSliceAdditionalSpecFns;
use crate::text::{
    chars_of, contains, ends_with, push_str, str_equal, string_from_chars, trim,
    trim_seq, u64_to_string, decimal, contains_seq, ends_with_seq,
};

verus! {

/// System instruction for transcribing English audio.
pub const TRANSCRIBE_SYSTEM_ENGLISH: &'static str = "You are a professional voice dictation assistant. Your task is to transcribe the audio and clean it up. \
The spoken language is English. You must write everything strictly in English.

CRITICAL LANGUAGE RULES:
1. FILTER BACKGROUND NOISE: Ignore any ambient noise, background chatter, crosstalk, or non-speech sounds. Do not transcribe them.
2. WRITE ONLY IN ENGLISH: The spoken audio/text is in English. You must write everything strictly in English. Do NOT mix other languages, and do NOT use Devanagari script, Romanized Hindi, or any non-English script.
3. TRANSLATE/CORRECT NON-ENGLISH: If there are any non-English words, phrases, or scripts in the raw input (due to transcription errors, noise, accents, or code-switching), you MUST translate them to English or correct them to fit the English context. The entire output must be 100% standard English.
4. REMOVE FILLER WORDS: Remove filler words (like 'um', 'uh', 'like', 'ah'), correct backtracking, and format into clean, readable text.
5. NO META-TEXT: Do not add any conversational responses, notes, explanations, prefix, or suffix. Return ONLY the finalized text.";

/// System instruction for transcribing Hindi or Hinglish audio.
pub const TRANSCRIBE_SYSTEM_HINDI: &'static str = "You are a professional voice dictation assistant. Your task is to transcribe the audio and clean it up. \
Keep all original meaning but remove filler words (like 'um', 'uh', 'like'), correct backtracking, and format it into clean text.

CRITICAL TRANSLITERATION, SCRIPT & TRANSLATION PRESERVATION RULES:
1. FILTER BACKGROUND NOISE: Ignore any ambient noise, background chatter, crosstalk, or non-speech sounds. Do not transcribe them.
2. DO NOT TRANSLATE: Absolutely DO NOT translate any spoken words to English or any other language. Transcribe exactly the words spoken in their native language.
3. HINDI IN DEVANAGARI: If the speaker speaks in Hindi (or a mix of Hindi and English), you MUST write all Hindi words/phrases in Devanagari script.
4. ENGLISH IN ENGLISH SCRIPT: Keep all English words and phrases in English (Latin script). For example, 'software engineer', 'developer', 'meeting', 'call you later' must remain in English script. Do NOT translate English words to Hindi.
5. MIXED LANGUAGE (HINGLISH) HANDLING: For code-mixed speech (mixing Hindi and English), write each word/phrase in its respective native script (e.g., Hindi in Devanagari script, English in English script).
   - Example Spoken: \"Mera naam Hemanshu hai and I am a software engineer\"
   - Expected Output: \"मेरा नाम हिमांशु है and I am a software engineer\"
   - (DO NOT output: \"My name is Hemanshu and I am a software engineer\")
6. NO META-TEXT: Do not add any conversational responses, notes, explanations, prefix, or suffix. Return ONLY the transcribed and cleaned text.";

/// System instruction for transcribing audio in any other language.
pub const TRANSCRIBE_SYSTEM_OTHER: &'static str = "You are a professional voice dictation assistant. Your task is to transcribe the audio and clean it up. \
Keep all original meaning but remove filler words (like 'um', 'uh', 'like'), correct backtracking, and format it into clean text.

CRITICAL SCRIPT & TRANSLATION PRESERVATION RULES:
1. FILTER BACKGROUND NOISE: Ignore any ambient noise, background chatter, crosstalk, or non-speech sounds. Do not transcribe them.
2. DO NOT TRANSLATE: Absolutely DO NOT translate non-English words to English. Transcribe exactly the words spoken in their native language.
3. NATIVE SCRIPT: Write the spoken words in their respective native script (e.g., Spanish words in Spanish/Latin script, Chinese in Chinese characters, Hindi in Devanagari script).
4. ENGLISH IN ENGLISH SCRIPT: Keep all English words and phrases in English (Latin script).
5. MIXED LANGUAGE HANDLING: For code-mixed speech (mixing the target language and English), write each word/phrase in its respective native script.
6. NO META-TEXT: Do not add any conversational responses, notes, explanations, prefix, or suffix. Return ONLY the transcribed and cleaned text.";

/// Language directive for English audio.
pub const TRANSCRIBE_DIRECTIVE_ENGLISH: &'static str = "IMPORTANT: The audio is spoken in English. You must transcribe everything strictly in English. Do NOT use any Hindi words, Devanagari script, Romanized Hindi, or non-English script. Translate or correct any non-English words to clean English.";

/// Language directive for Hindi audio.
pub const TRANSCRIBE_DIRECTIVE_HINDI: &'static str = " IMPORTANT SCRIPT & TRANSLATION RULES: The audio is in Hindi (or Hinglish, a mix of Hindi and English). You MUST transcribe Hindi words in Devanagari script (e.g. 'मेरा', 'नाम', 'है', 'कैसे', 'हो') and English words in English/Latin script. Absolutely DO NOT translate Hindi words to English (e.g. do NOT transcribe 'मेरा नाम' as 'My name').";

/// Piece 0 of the language directive for a named language.
pub const TRANSCRIBE_DIRECTIVE_NAMED_0: &'static str = " IMPORTANT: The audio is spoken in ";

/// Piece 1 of the language directive for a named language.
pub const TRANSCRIBE_DIRECTIVE_NAMED_1: &'static str = " (or a mix of ";

/// Piece 2 of the language directive for a named language.
pub const TRANSCRIBE_DIRECTIVE_NAMED_2: &'static str = " and English). You must transcribe exactly what is spoken in that same language mix. Write ";

/// Piece 3 of the language directive for a named language.
pub const TRANSCRIBE_DIRECTIVE_NAMED_3: &'static str = " words in native script and English words in English script. Do NOT translate non-English words to English.";

/// Language directive when the language is detected automatically.
pub const TRANSCRIBE_DIRECTIVE_AUTO: &'static str = " IMPORTANT SCRIPT & TRANSLATION RULES: Detect the language spoken in the audio. If the audio is in Hindi or Hinglish (mixed Hindi-English), you MUST write Hindi words in Devanagari script and English words in English script. Absolutely DO NOT translate Hindi words to English (e.g. do NOT write 'My name' if the speaker said 'Mera naam'). Absolutely DO NOT translate English words to Hindi.";

/// Piece 0 of the transcription prompt.
pub const TRANSCRIBE_PROMPT_0: &'static str = "User Instruction: ";

/// Piece 1 of the transcription prompt.
pub const TRANSCRIBE_PROMPT_1: &'static str = "\n\nCRITICAL SCRIPT & LANGUAGE DIRECTIVE: ";

/// Piece 2 of the transcription prompt.
pub const TRANSCRIBE_PROMPT_2: &'static str = "\n\nTranscribe and clean up the audio according to these instructions:";

/// User instruction used when the configured prompt is empty.
pub const TRANSCRIBE_DEFAULT_INSTRUCTION: &'static str = "Transcribe and clean up the audio.";

/// System instruction for refining English text.
pub const REFINE_SYSTEM_ENGLISH: &'static str = "You are a professional voice dictation assistant. Your task is to refine and clean up the raw transcription. \
The spoken language is English. You must write everything strictly in English.

CRITICAL LANGUAGE RULES:
1. FILTER BACKGROUND NOISE: Ignore and remove any words or phrases that represent ambient noise, background chatter, crosstalk, or non-speech sounds. Do not include them in the refined text.
2. WRITE ONLY IN ENGLISH: The spoken audio/text is in English. You must write everything strictly in English. Do NOT mix other languages, and do NOT use Devanagari script, Romanized Hindi, or any non-English script.
3. TRANSLATE/CORRECT NON-ENGLISH: If there are any non-English words, phrases, or scripts in the raw input (due to transcription errors, noise, accents, or code-switching), you MUST translate them to English or correct them to fit the English context. The entire output must be 100% standard English.
4. REMOVE FILLER WORDS: Remove filler words (like 'um', 'uh', 'like', 'ah'), correct backtracking, and format into clean, readable text.
5. NO META-TEXT: Do not add any conversational responses, explanations, note, prefix, or suffix. Return ONLY the finalized refined text.";

/// System instruction for refining Hindi or Hinglish text.
pub const REFINE_SYSTEM_HINDI: &'static str = "You are a professional voice dictation assistant. Your task is to refine and clean up the raw transcription. \
You must carefully process the text to ensure the correct script and language are preserved.

CRITICAL TRANSLITERATION, SCRIPT & TRANSLATION PRESERVATION RULES:
1. FILTER BACKGROUND NOISE: Ignore and remove any words or phrases that represent ambient noise, background chatter, crosstalk, or non-speech sounds. Do not include them in the refined text.
2. DETECT HINDI WORDS: Identify all Hindi words and phrases, even if they are written in Roman/Latin script (Hinglish / transliterated script, e.g., 'mera', 'naam', 'hai', 'kaise', 'ho', 'main', 'aur').
3. WRITE HINDI IN DEVANAGARI: You MUST convert all Hindi words/phrases to Devanagari script (e.g., convert 'mera' to 'मेरा', 'naam' to 'नाम', 'hai' to 'है', 'kaise' to 'कैसे', 'ho' to 'हो').
4. KEEP ENGLISH IN ENGLISH SCRIPT: Keep all English words and phrases in English (Latin script). For example, 'software engineer', 'developer', 'meeting', 'call you later' must remain in English script. Do NOT translate English words to Hindi.
5. STRICTLY PROHIBIT TRANSLATION: Do NOT translate Hindi words to English (e.g., do NOT translate 'mera naam' or 'मेरा नाम' to 'my name'). Keep them in their original language, but written in Devanagari script.
6. REMOVE FILLER WORDS: Remove filler words (like 'um', 'uh', 'like', 'ah'), correct backtracking, and format into clean, readable text.
7. NO META-TEXT: Do not add any conversational responses, explanations, note, prefix, or suffix. Return ONLY the finalized refined text.

EXAMPLES:
- Input: \"mera naam hemanshu hai and I am a software engineer\"
  Output: \"मेरा नाम हिमांशु है and I am a software engineer\"
- Input: \"aaj weather bahut achha hai main office ja raha hoon\"
  Output: \"आज weather बहुत अच्छा है मैं office जा रहा हूँ\"
- Input: \"hello team aaj ki meeting ka agenda kya hai\"
  Output: \"hello team आज की meeting का agenda क्या है\"
- Input: \"I will call you later, main abhi busy hoon\"
  Output: \"I will call you later, मैं अभी busy हूँ\"";

/// System instruction for refining text in any other language.
pub const REFINE_SYSTEM_OTHER: &'static str = "You are a professional voice dictation assistant. Your task is to refine and clean up the raw transcription. \
You must carefully process the text to ensure the correct script and language are preserved.

CRITICAL SCRIPT & TRANSLATION PRESERVATION RULES:
1. FILTER BACKGROUND NOISE: Ignore and remove any words or phrases that represent ambient noise, background chatter, crosstalk, or non-speech sounds. Do not include them in the refined text.
2. DO NOT TRANSLATE: Absolutely DO NOT translate non-English words to English. Keep non-English words in their native language.
3. NATIVE SCRIPT: Write all non-English words in their respective native script (e.g., Spanish words in Spanish/Latin script, Chinese in Chinese characters, Hindi in Devanagari script).
4. KEEP ENGLISH IN ENGLISH SCRIPT: Keep all English words and phrases in English (Latin script). Do NOT translate English words to the target language.
5. MIXED LANGUAGE HANDLING: For code-mixed text, keep each word/phrase in its native script.
6. REMOVE FILLER WORDS: Remove filler words (like 'um', 'uh', 'like', 'ah'), correct backtracking, and format into clean, readable text.
7. NO META-TEXT: Do not add any conversational responses, explanations, note, prefix, or suffix. Return ONLY the finalized refined text.";

/// Language directive for English text.
pub const REFINE_DIRECTIVE_ENGLISH: &'static str = "IMPORTANT: The text is in English. You must refine it strictly in English. Do NOT use any Hindi words, Devanagari script, Romanized Hindi, or non-English script. Translate or correct any non-English words to clean English.";

/// Language directive for Hindi text.
pub const REFINE_DIRECTIVE_HINDI: &'static str = " IMPORTANT SCRIPT & TRANSLATION RULES: The text is in Hindi (or Hinglish, a mix of Hindi and English). You MUST refine and clean up the text in that same language mix. Write all Hindi words in Devanagari script (e.g. convert Romanized 'mera naam', 'kaise ho' to 'मेरा नाम', 'कैसे हो') and keep English words in English/Latin script. Absolutely DO NOT translate Hindi words to English (e.g. do NOT convert 'मेरा नाम' or 'mera naam' to 'My name').";

/// Piece 0 of the language directive for a named language.
pub const REFINE_DIRECTIVE_NAMED_0: &'static str = " IMPORTANT: The text is in ";

/// Piece 1 of the language directive for a named language.
pub const REFINE_DIRECTIVE_NAMED_1: &'static str = " (or a mix of ";

/// Piece 2 of the language directive for a named language.
pub const REFINE_DIRECTIVE_NAMED_2: &'static str = " and English). You must refine and clean up the text in that same language mix. Keep ";

/// Piece 3 of the language directive for a named language.
pub const REFINE_DIRECTIVE_NAMED_3: &'static str = " words in their native script and English words in English script. Do NOT translate non-English words to English.";

/// Language directive when the language is detected automatically.
pub const REFINE_DIRECTIVE_AUTO: &'static str = " IMPORTANT SCRIPT & TRANSLATION RULES: Detect the language of the raw text. If the raw text contains Hindi or Hinglish (mixed Hindi-English), you MUST write all Hindi words in Devanagari script and keep all English words in English script. Absolutely DO NOT translate Hindi words to English (e.g. do NOT convert 'मेरा नाम' or 'mera naam' to 'My name').";

/// Piece 0 of the refinement prompt.
pub const REFINE_PROMPT_0: &'static str = "User Instruction: ";

/// Piece 1 of the refinement prompt.
pub const REFINE_PROMPT_1: &'static str = "\n\nCRITICAL SCRIPT & LANGUAGE DIRECTIVE: ";

/// Piece 2 of the refinement prompt.
pub const REFINE_PROMPT_2: &'static str = "\n\nRaw Transcript to clean up:\n\"\"\"\n";

/// Piece 3 of the refinement prompt.
pub const REFINE_PROMPT_3: &'static str = "\n\"\"\"\n\nRefined and Cleaned transcript:";

/// System prompt of the local model for English.
pub const LOCAL_SYSTEM_ENGLISH: &'static str = "You are an expert editor. Rewrite the transcript to be clear, clean, and grammatically correct. \
         Remove all filler words (uh, um, ah, like) and backtracking. \
         Write everything strictly in English. Do not translate. \
         Never reply with chat greetings, explanations, or notes. Return only the cleaned text.";

/// System prompt of the local model for Hindi.
pub const LOCAL_SYSTEM_HINDI: &'static str = "You are an expert editor. Rewrite the transcript to be clear, clean, and grammatically correct. \
         Remove all filler words (uh, um, ah, like) and backtracking. \
         Convert all Hindi words written in Roman script to Devanagari script. \
         Keep all English words in Latin script. Do not translate Hindi to English or English to Hindi. \
         Never reply with chat greetings, explanations, or notes. Return only the cleaned text.";

/// Piece 0 of the local system prompt for another language.
pub const LOCAL_SYSTEM_NAMED_0: &'static str = "You are an expert editor. Rewrite the transcript to be clear, clean, and grammatically correct. \
             Remove all filler words (uh, um, ah, like) and backtracking. \
             Keep all original ";

/// Piece 1 of the local system prompt for another language.
pub const LOCAL_SYSTEM_NAMED_1: &'static str = " words in their native script. Keep English in Latin script. Do not translate. \
             Never reply with chat greetings, explanations, or notes. Return only the cleaned text.";

/// Piece 0 of the local user prompt without an instruction.
pub const LOCAL_USER_PLAIN_0: &'static str = "Clean up this text. Remove all filler words (like \"um\", \"uh\", \"ah\"), fix repetitions, and correct grammar and punctuation. Do not add any extra text or quotes around the response. Return only the cleaned text.\n\nText: \"";

/// Piece 1 of the local user prompt without an instruction.
pub const LOCAL_USER_PLAIN_1: &'static str = "\"";

/// Piece 0 of the local user prompt with an instruction.
pub const LOCAL_USER_WITH_INSTRUCTION_0: &'static str = "Clean up this text. Remove all filler words (like \"um\", \"uh\", \"ah\"), fix repetitions, and correct grammar and punctuation. Do not add any extra text or quotes around the response. Return only the cleaned text.\n\nUser Instruction: ";

/// Piece 1 of the local user prompt with an instruction.
pub const LOCAL_USER_WITH_INSTRUCTION_1: &'static str = "\n\nText: \"";

/// Piece 2 of the local user prompt with an instruction.
pub const LOCAL_USER_WITH_INSTRUCTION_2: &'static str = "\"";

/// Primer text that steers Whisper towards mixed Hindi and English.
pub const HINGLISH_PRIMER: &'static str = "Mera naam Hemanshu hai and I am a software engineer. Hello, how are you? आप कैसे हो? मैं ठीक हूँ।";


/// The language name for a language code; unknown codes (and `"auto"`)
/// mean automatic detection.
pub open spec fn language_name_spec(code: Seq<char>) -> Seq<char> {
    if code == "en"@ {
        "English"@
    } else if code == "hi"@ {
        "Hindi"@
    } else if code == "es"@ {
        "Spanish"@
    } else if code == "fr"@ {
        "French"@
    } else if code == "de"@ {
        "German"@
    } else if code == "it"@ {
        "Italian"@
    } else if code == "pt"@ {
        "Portuguese"@
    } else if code == "zh"@ {
        "Chinese"@
    } else if code == "ja"@ {
        "Japanese"@
    } else if code == "ko"@ {
        "Korean"@
    } else if code == "ru"@ {
        "Russian"@
    } else {
        "Auto-detect"@
    }
}

/// The language name for a language code such as `"hi"`.
pub fn get_language_name(code: &str) -> (r: &'static str)
    ensures
        r@ == language_name_spec(code@),
{
    if str_equal(code, "en") {
        "English"
    } else if str_equal(code, "hi") {
        "Hindi"
    } else if str_equal(code, "es") {
        "Spanish"
    } else if str_equal(code, "fr") {
        "French"
    } else if str_equal(code, "de") {
        "German"
    } else if str_equal(code, "it") {
        "Italian"
    } else if str_equal(code, "pt") {
        "Portuguese"
    } else if str_equal(code, "zh") {
        "Chinese"
    } else if str_equal(code, "ja") {
        "Japanese"
    } else if str_equal(code, "ko") {
        "Korean"
    } else if str_equal(code, "ru") {
        "Russian"
    } else {
        "Auto-detect"
    }
}

/// The system instruction for transcribing audio in the named language.
pub open spec fn transcription_system_spec(name: Seq<char>) -> Seq<char> {
    if name == "English"@ {
        TRANSCRIBE_SYSTEM_ENGLISH@
    } else if name == "Hindi"@ {
        TRANSCRIBE_SYSTEM_HINDI@
    } else {
        TRANSCRIBE_SYSTEM_OTHER@
    }
}

/// The system instruction for transcribing audio in the named language.
pub fn transcription_system_instruction(language_name: &str) -> (r: &'static str)
    ensures
        r@ == transcription_system_spec(language_name@),
{
    if str_equal(language_name, "English") {
        TRANSCRIBE_SYSTEM_ENGLISH
    } else if str_equal(language_name, "Hindi") {
        TRANSCRIBE_SYSTEM_HINDI
    } else {
        TRANSCRIBE_SYSTEM_OTHER
    }
}

/// The language directive of a transcription prompt.
pub open spec fn transcription_directive_spec(name: Seq<char>) -> Seq<char> {
    if name == "English"@ {
        TRANSCRIBE_DIRECTIVE_ENGLISH@
    } else if name == "Hindi"@ {
        TRANSCRIBE_DIRECTIVE_HINDI@
    } else if name != "Auto-detect"@ {
        TRANSCRIBE_DIRECTIVE_NAMED_0@ + name + TRANSCRIBE_DIRECTIVE_NAMED_1@ + name
            + TRANSCRIBE_DIRECTIVE_NAMED_2@ + name + TRANSCRIBE_DIRECTIVE_NAMED_3@
    } else {
        TRANSCRIBE_DIRECTIVE_AUTO@
    }
}

/// The language directive of a transcription prompt for the named language.
pub fn transcription_directive(language_name: &str) -> (r: String)
    ensures
        r@ == transcription_directive_spec(language_name@),
{
    if str_equal(language_name, "English") {
        String::from_str(TRANSCRIBE_DIRECTIVE_ENGLISH)
    } else if str_equal(language_name, "Hindi") {
        String::from_str(TRANSCRIBE_DIRECTIVE_HINDI)
    } else if !str_equal(language_name, "Auto-detect") {
        let mut r = String::from_str(TRANSCRIBE_DIRECTIVE_NAMED_0);
        r.append(language_name);
        r.append(TRANSCRIBE_DIRECTIVE_NAMED_1);
        r.append(language_name);
        r.append(TRANSCRIBE_DIRECTIVE_NAMED_2);
        r.append(language_name);
        r.append(TRANSCRIBE_DIRECTIVE_NAMED_3);
        r
    } else {
        String::from_str(TRANSCRIBE_DIRECTIVE_AUTO)
    }
}

/// The user prompt sent with the audio: the user's instruction (or a
/// default one when it is empty) followed by the language directive.
pub open spec fn transcription_prompt_spec(prompt: Seq<char>, directive: Seq<char>) -> Seq<char> {
    TRANSCRIBE_PROMPT_0@ + (if prompt.len() == 0 {
        TRANSCRIBE_DEFAULT_INSTRUCTION@
    } else {
        prompt
    }) + TRANSCRIBE_PROMPT_1@ + directive + TRANSCRIBE_PROMPT_2@
}

/// The user prompt sent with the audio.
pub fn transcription_prompt(prompt: &str, directive: &str) -> (r: String)
    ensures
        r@ == transcription_prompt_spec(prompt@, directive@),
{
    let mut r = String::from_str(TRANSCRIBE_PROMPT_0);
    if prompt.unicode_len() == 0 {
        r.append(TRANSCRIBE_DEFAULT_INSTRUCTION);
    } else {
        r.append(prompt);
    }
    r.append(TRANSCRIBE_PROMPT_1);
    r.append(directive);
    r.append(TRANSCRIBE_PROMPT_2);
    r
}

/// The system instruction for refining text in the named language.
pub open spec fn refine_system_spec(name: Seq<char>) -> Seq<char> {
    if name == "English"@ {
        REFINE_SYSTEM_ENGLISH@
    } else if name == "Hindi"@ {
        REFINE_SYSTEM_HINDI@
    } else {
        REFINE_SYSTEM_OTHER@
    }
}

/// The system instruction for refining text in the named language.
pub fn refine_system_instruction(language_name: &str) -> (r: &'static str)
    ensures
        r@ == refine_system_spec(language_name@),
{
    if str_equal(language_name, "English") {
        REFINE_SYSTEM_ENGLISH
    } else if str_equal(language_name, "Hindi") {
        REFINE_SYSTEM_HINDI
    } else {
        REFINE_SYSTEM_OTHER
    }
}

/// The language directive of a refinement prompt.
pub open spec fn refine_directive_spec(name: Seq<char>) -> Seq<char> {
    if name == "English"@ {
        REFINE_DIRECTIVE_ENGLISH@
    } else if name == "Hindi"@ {
        REFINE_DIRECTIVE_HINDI@
    } else if name != "Auto-detect"@ {
        REFINE_DIRECTIVE_NAMED_0@ + name + REFINE_DIRECTIVE_NAMED_1@ + name
            + REFINE_DIRECTIVE_NAMED_2@ + name + REFINE_DIRECTIVE_NAMED_3@
    } else {
        REFINE_DIRECTIVE_AUTO@
    }
}

/// The language directive of a refinement prompt for the named language.
pub fn refine_directive(language_name: &str) -> (r: String)
    ensures
        r@ == refine_directive_spec(language_name@),
{
    if str_equal(language_name, "English") {
        String::from_str(REFINE_DIRECTIVE_ENGLISH)
    } else if str_equal(language_name, "Hindi") {
        String::from_str(REFINE_DIRECTIVE_HINDI)
    } else if !str_equal(language_name, "Auto-detect") {
        let mut r = String::from_str(REFINE_DIRECTIVE_NAMED_0);
        r.append(language_name);
        r.append(REFINE_DIRECTIVE_NAMED_1);
        r.append(language_name);
        r.append(REFINE_DIRECTIVE_NAMED_2);
        r.append(language_name);
        r.append(REFINE_DIRECTIVE_NAMED_3);
        r
    } else {
        String::from_str(REFINE_DIRECTIVE_AUTO)
    }
}

/// The user prompt of a refinement: instruction, language directive and the
/// raw transcript between triple quotes.
pub open spec fn refine_prompt_spec(prompt: Seq<char>, directive: Seq<char>, raw_text: Seq<char>) -> Seq<
    char,
> {
    REFINE_PROMPT_0@ + prompt + REFINE_PROMPT_1@ + directive + REFINE_PROMPT_2@ + raw_text
        + REFINE_PROMPT_3@
}

/// The user prompt of a refinement.
pub fn refine_prompt(prompt: &str, directive: &str, raw_text: &str) -> (r: String)
    ensures
        r@ == refine_prompt_spec(prompt@, directive@, raw_text@),
{
    let mut r = String::from_str(REFINE_PROMPT_0);
    r.append(prompt);
    r.append(REFINE_PROMPT_1);
    r.append(directive);
    r.append(REFINE_PROMPT_2);
    r.append(raw_text);
    r.append(REFINE_PROMPT_3);
    r
}

/// What is sent to a refinement model (Gemini, Ollama or an
/// OpenAI-compatible chat API).
pub struct RefineRequest {
    pub system_instruction: String,
    pub prompt: String,
}

/// The refinement request for a raw transcript in the language with code
/// `language`.
pub fn refine_request(prompt: &str, raw_text: &str, language: &str) -> (r: RefineRequest)
    ensures
        r.system_instruction@ == refine_system_spec(language_name_spec(language@)),
        r.prompt@ == refine_prompt_spec(
            prompt@,
            refine_directive_spec(language_name_spec(language@)),
            raw_text@,
        ),
{
    let name = get_language_name(language);
    let directive = refine_directive(name);
    RefineRequest {
        system_instruction: String::from_str(refine_system_instruction(name)),
        prompt: refine_prompt(prompt, directive.as_str(), raw_text),
    }
}

/// The standard Base64 alphabet (RFC 4648): the character for each 6-bit
/// value.
pub open spec fn base64_alphabet() -> Seq<char> {
    "ABCDEFGHIJKLMNOPQRSTUVWXYZabcdefghijklmnopqrstuvwxyz0123456789+/"@
}

/// The character for a 6-bit value.
pub open spec fn base64_digit(v: int) -> char {
    base64_alphabet()[v]
}

/// The standard (padded) Base64 encoding of a byte sequence: each group of
/// three bytes becomes four characters, six bits each, most significant
/// first; a final group of one or two bytes is padded with `=`.
pub open spec fn base64_standard(b: Seq<u8>) -> Seq<char>
    decreases b.len(),
{
    if b.len() == 0 {
        Seq::empty()
    } else if b.len() == 1 {
        let x = b[0] as int;
        seq![base64_digit(x / 4), base64_digit((x % 4) * 16), '=', '=']
    } else if b.len() == 2 {
        let x = b[0] as int;
        let y = b[1] as int;
        seq![base64_digit(x / 4), base64_digit((x % 4) * 16 + y / 16), base64_digit((y % 16) * 4), '=']
    } else {
        let x = b[0] as int;
        let y = b[1] as int;
        let z = b[2] as int;
        seq![
            base64_digit(x / 4),
            base64_digit((x % 4) * 16 + y / 16),
            base64_digit((y % 16) * 4 + z / 64),
            base64_digit(z % 64),
        ] + base64_standard(b.subrange(3, b.len() as int))
    }
}

/// The encoding has four characters for every started group of three bytes.
pub proof fn lemma_base64_len(b: Seq<u8>)
    ensures
        base64_standard(b).len() == 4 * ((b.len() + 2) / 3),
    decreases b.len(),
{
    if b.len() > 2 {
        lemma_base64_len(b.subrange(3, b.len() as int));
    }
}

/// `base64::engine::general_purpose::STANDARD.encode`: the padded standard
/// encoding (RFC 4648 alphabet, `=` padding), four characters for every
/// started group of three bytes. The crate panics when that length
/// overflows `usize`, which `requires` rules out.
#[verifier::external_body]
fn encode_base64(bytes: &[u8]) -> (r: String)
    requires
        4 * ((bytes@.len() + 2) / 3) <= usize::MAX,
    ensures
        r@ == base64_standard(bytes@),
{
    base64::engine::general_purpose::STANDARD.encode(bytes)
}

/// The `generateContent` endpoint of a Gemini model.
pub open spec fn gemini_url_spec(model: Seq<char>, api_key: Seq<char>) -> Seq<char> {
    "https://generativelanguage.googleapis.com/v1beta/models/"@ + model + ":generateContent?key="@
        + api_key
}

/// The `generateContent` endpoint of a Gemini model.
pub fn gemini_url(model: &str, api_key: &str) -> (r: String)
    ensures
        r@ == gemini_url_spec(model@, api_key@),
{
    let mut r = String::from_str("https://generativelanguage.googleapis.com/v1beta/models/");
    r.append(model);
    r.append(":generateContent?key=");
    r.append(api_key);
    r
}

/// A Gemini request that transcribes (and cleans up) recorded audio.
pub struct GeminiAudioRequest {
    pub url: String,
    pub system_instruction: String,
    pub prompt: String,
    /// MIME type of the inline audio.
    pub mime_type: String,
    /// The WAV file, Base64-encoded.
    pub audio_base64: String,
}

/// Assembles the Gemini request that transcribes the WAV file `wav_bytes`
/// in one call: Base64 audio inline, the system instruction and language
/// directive for `language`, and the user's `prompt`.
pub fn gemini_audio_request(
    wav_bytes: &[u8],
    api_key: &str,
    prompt: &str,
    model: &str,
    language: &str,
) -> (r: GeminiAudioRequest)
    requires
        4 * ((wav_bytes@.len() + 2) / 3) <= usize::MAX,
    ensures
        r.url@ == gemini_url_spec(model@, api_key@),
        r.system_instruction@ == transcription_system_spec(language_name_spec(language@)),
        r.prompt@ == transcription_prompt_spec(
            prompt@,
            transcription_directive_spec(language_name_spec(language@)),
        ),
        r.mime_type@ == "audio/wav"@,
        r.audio_base64@ == base64_standard(wav_bytes@),
{
    let audio_base64 = encode_base64(wav_bytes);
    let name = get_language_name(language);
    let directive = transcription_directive(name);
    GeminiAudioRequest {
        url: gemini_url(model, api_key),
        system_instruction: String::from_str(transcription_system_instruction(name)),
        prompt: transcription_prompt(prompt, directive.as_str()),
        mime_type: String::from_str("audio/wav"),
        audio_base64,
    }
}

/// The system prompt of the local refinement model.
pub open spec fn local_system_prompt_spec(name: Seq<char>) -> Seq<char> {
    if name == "English"@ {
        LOCAL_SYSTEM_ENGLISH@
    } else if name == "Hindi"@ {
        LOCAL_SYSTEM_HINDI@
    } else {
        LOCAL_SYSTEM_NAMED_0@ + name + LOCAL_SYSTEM_NAMED_1@
    }
}

/// The system prompt of the local refinement model for the named language.
pub fn local_system_prompt(language_name: &str) -> (r: String)
    ensures
        r@ == local_system_prompt_spec(language_name@),
{
    if str_equal(language_name, "English") {
        String::from_str(LOCAL_SYSTEM_ENGLISH)
    } else if str_equal(language_name, "Hindi") {
        String::from_str(LOCAL_SYSTEM_HINDI)
    } else {
        let mut r = String::from_str(LOCAL_SYSTEM_NAMED_0);
        r.append(language_name);
        r.append(LOCAL_SYSTEM_NAMED_1);
        r
    }
}

/// The user prompt of the local refinement model.
pub open spec fn local_user_prompt_spec(prompt: Seq<char>, raw_text: Seq<char>) -> Seq<char> {
    if prompt.len() == 0 {
        LOCAL_USER_PLAIN_0@ + raw_text + LOCAL_USER_PLAIN_1@
    } else {
        LOCAL_USER_WITH_INSTRUCTION_0@ + prompt + LOCAL_USER_WITH_INSTRUCTION_1@ + raw_text
            + LOCAL_USER_WITH_INSTRUCTION_2@
    }
}

/// The user prompt of the local refinement model: the cleaning request, the
/// user's instruction when there is one, and the quoted text.
pub fn local_user_prompt(prompt: &str, raw_text: &str) -> (r: String)
    ensures
        r@ == local_user_prompt_spec(prompt@, raw_text@),
{
    if prompt.unicode_len() == 0 {
        let mut r = String::from_str(LOCAL_USER_PLAIN_0);
        r.append(raw_text);
        r.append(LOCAL_USER_PLAIN_1);
        r
    } else {
        let mut r = String::from_str(LOCAL_USER_WITH_INSTRUCTION_0);
        r.append(prompt);
        r.append(LOCAL_USER_WITH_INSTRUCTION_1);
        r.append(raw_text);
        r.append(LOCAL_USER_WITH_INSTRUCTION_2);
        r
    }
}


/// `str::trim_end_matches` with a character: `s` without any trailing `c`.
pub open spec fn trim_end_char(s: Seq<char>, c: char) -> Seq<char>
    decreases s.len(),
{
    if s.len() > 0 && s.last() == c {
        trim_end_char(s.drop_last(), c)
    } else {
        s
    }
}

/// `str::trim_end_matches('/')`.
pub fn trim_trailing_slashes(s: &str) -> (r: Vec<char>)
    ensures
        r@ == trim_end_char(s@, '/'),
{
    let mut v = chars_of(s);
    while v.len() > 0 && v[v.len() - 1] == '/'
        invariant
            trim_end_char(v@, '/') == trim_end_char(s@, '/'),
        decreases v@.len(),
    {
        let ghost before = v@;
        v.pop();
        assert(v@ =~= before.drop_last());
    }
    v
}

/// The Ollama generate endpoint under a server URL.
pub open spec fn ollama_endpoint_spec(ollama_url: Seq<char>) -> Seq<char> {
    trim_end_char(ollama_url, '/') + "/api/generate"@
}

/// The Ollama generate endpoint under a server URL (trailing slashes of the
/// URL dropped).
pub fn ollama_endpoint(ollama_url: &str) -> (r: String)
    ensures
        r@ == ollama_endpoint_spec(ollama_url@),
{
    let mut v = trim_trailing_slashes(ollama_url);
    push_str(&mut v, "/api/generate");
    string_from_chars(&v)
}

/// The transcription endpoint of an LM Studio server.
pub open spec fn lm_studio_endpoint_spec(base_url: Seq<char>) -> Seq<char> {
    let e = trim_end_char(trim_seq(base_url), '/');
    if ends_with_seq(e, "/audio/transcriptions"@) {
        e
    } else if ends_with_seq(e, "/v1"@) {
        e + "/audio/transcriptions"@
    } else {
        e + "/v1/audio/transcriptions"@
    }
}

/// The transcription endpoint of an LM Studio server: the URL trimmed,
/// without trailing slashes, completed with `/v1/audio/transcriptions` as
/// far as it is missing.
pub fn lm_studio_endpoint(base_url: &str) -> (r: String)
    ensures
        r@ == lm_studio_endpoint_spec(base_url@),
{
    let t = trim(base_url);
    let mut e = trim_trailing_slashes(t.as_str());
    let suffix = chars_of("/audio/transcriptions");
    let v1 = chars_of("/v1");
    if ends_with(&e, &suffix) {
    } else if ends_with(&e, &v1) {
        push_str(&mut e, "/audio/transcriptions");
    } else {
        push_str(&mut e, "/v1/audio/transcriptions");
    }
    string_from_chars(&e)
}

/// The chat-completions endpoint of an OpenAI-compatible API.
pub open spec fn openai_compatible_endpoint_spec(api_url: Seq<char>) -> Seq<char> {
    let e = trim_seq(api_url);
    if !contains_seq(e, "/chat/completions"@) && !contains_seq(e, "/completions"@) {
        if ends_with_seq(e, "/"@) {
            e + "chat/completions"@
        } else {
            e + "/chat/completions"@
        }
    } else {
        e
    }
}

/// The chat-completions endpoint of an OpenAI-compatible API: the URL
/// trimmed, with `/chat/completions` added unless it already names a
/// completions endpoint.
pub fn openai_compatible_endpoint(api_url: &str) -> (r: String)
    ensures
        r@ == openai_compatible_endpoint_spec(api_url@),
{
    let t = trim(api_url);
    let mut e = chars_of(t.as_str());
    let chat = chars_of("/chat/completions");
    let completions = chars_of("/completions");
    let slash = chars_of("/");
    if !contains(&e, &chat) && !contains(&e, &completions) {
        if ends_with(&e, &slash) {
            push_str(&mut e, "chat/completions");
        } else {
            push_str(&mut e, "/chat/completions");
        }
    }
    string_from_chars(&e)
}

/// OpenRouter asks callers to identify themselves with extra headers.
pub fn needs_openrouter_headers(endpoint: &str) -> (r: bool)
    ensures
        r == contains_seq(endpoint@, "openrouter.ai"@),
{
    let e = chars_of(endpoint);
    let host = chars_of("openrouter.ai");
    contains(&e, &host)
}

/// The views of a list of name/value pairs.
pub open spec fn pair_views(v: Seq<(String, String)>) -> Seq<(Seq<char>, Seq<char>)> {
    v.map_values(|p: (String, String)| (p.0@, p.1@))
}

/// The views of a list of strings.
pub open spec fn string_views(v: Seq<String>) -> Seq<Seq<char>> {
    v.map_values(|s: String| s@)
}

fn pair(a: &str, b: &str) -> (r: (String, String))
    ensures
        r.0@ == a@,
        r.1@ == b@,
{
    (String::from_str(a), String::from_str(b))
}

/// The text fields of an OpenAI transcription request (besides the file).
pub open spec fn openai_fields_spec(model: Seq<char>, language: Seq<char>) -> Seq<(Seq<char>, Seq<char>)> {
    seq![("model"@, model)] + (if language != "auto"@ {
        seq![("language"@, language)]
    } else {
        Seq::empty()
    }) + (if language == "hi"@ || language == "auto"@ {
        seq![("prompt"@, HINGLISH_PRIMER@)]
    } else {
        Seq::empty()
    })
}

/// The text fields of an OpenAI transcription request: the model, the
/// language unless it is detected automatically, and a Hinglish primer for
/// Hindi or automatic detection.
pub fn openai_transcription_fields(model: &str, language: &str) -> (r: Vec<(String, String)>)
    ensures
        pair_views(r@) == openai_fields_spec(model@, language@),
{
    let mut r: Vec<(String, String)> = Vec::new();
    r.push(pair("model", model));
    let auto = str_equal(language, "auto");
    if !auto {
        r.push(pair("language", language));
    }
    if str_equal(language, "hi") || auto {
        r.push(pair("prompt", HINGLISH_PRIMER));
    }
    assert(pair_views(r@) =~= openai_fields_spec(model@, language@));
    r
}

/// The text fields of an LM Studio transcription request.
pub open spec fn lm_studio_fields_spec(language: Seq<char>) -> Seq<(Seq<char>, Seq<char>)> {
    seq![("model"@, "whisper-1"@)] + (if language != "auto"@ {
        seq![("language"@, language)]
    } else {
        Seq::empty()
    })
}

/// The text fields of an LM Studio transcription request: the model, and
/// the language unless it is detected automatically.
pub fn lm_studio_transcription_fields(language: &str) -> (r: Vec<(String, String)>)
    ensures
        pair_views(r@) == lm_studio_fields_spec(language@),
{
    let mut r: Vec<(String, String)> = Vec::new();
    r.push(pair("model", "whisper-1"));
    if !str_equal(language, "auto") {
        r.push(pair("language", language));
    }
    assert(pair_views(r@) =~= lm_studio_fields_spec(language@));
    r
}

/// The arguments of the `whisper` command line.
pub open spec fn whisper_args_spec(
    wav_path: Seq<char>,
    model: Seq<char>,
    output_dir: Seq<char>,
    language: Seq<char>,
) -> Seq<Seq<char>> {
    seq![
        wav_path,
        "--model"@,
        model,
        "--output_dir"@,
        output_dir,
        "--output_format"@,
        "txt"@,
        "--fp16"@,
        "False"@,
    ] + (if language != "auto"@ {
        seq!["--language"@, language]
    } else {
        Seq::empty()
    }) + (if language == "hi"@ || language == "auto"@ {
        seq!["--initial_prompt"@, HINGLISH_PRIMER@]
    } else {
        Seq::empty()
    })
}

/// The arguments of the `whisper` command line that transcribes `wav_path`
/// into a text file in `output_dir`.
pub fn whisper_cli_args(wav_path: &str, model: &str, output_dir: &str, language: &str) -> (r: Vec<
    String,
>)
    ensures
        string_views(r@) == whisper_args_spec(wav_path@, model@, output_dir@, language@),
{
    let mut r: Vec<String> = Vec::new();
    r.push(String::from_str(wav_path));
    r.push(String::from_str("--model"));
    r.push(String::from_str(model));
    r.push(String::from_str("--output_dir"));
    r.push(String::from_str(output_dir));
    r.push(String::from_str("--output_format"));
    r.push(String::from_str("txt"));
    r.push(String::from_str("--fp16"));
    r.push(String::from_str("False"));
    let auto = str_equal(language, "auto");
    if !auto {
        r.push(String::from_str("--language"));
        r.push(String::from_str(language));
    }
    if str_equal(language, "hi") || auto {
        r.push(String::from_str("--initial_prompt"));
        r.push(String::from_str(HINGLISH_PRIMER));
    }
    assert(string_views(r@) =~= whisper_args_spec(wav_path@, model@, output_dir@, language@));
    r
}

/// The arguments of the Python script that transcribes with sherpa-onnx.
pub open spec fn sherpa_args_spec(
    script_path: Seq<char>,
    wav_path: Seq<char>,
    model_type: Seq<char>,
    model_dir: Seq<char>,
    language: Seq<char>,
) -> Seq<Seq<char>> {
    seq![
        script_path,
        "--wav_path"@,
        wav_path,
        "--model_type"@,
        model_type,
        "--model_dir"@,
        model_dir,
        "--language"@,
        language,
    ]
}

/// The arguments of the Python script that transcribes with sherpa-onnx.
pub fn sherpa_script_args(
    script_path: &str,
    wav_path: &str,
    model_type: &str,
    model_dir: &str,
    language: &str,
) -> (r: Vec<String>)
    ensures
        string_views(r@) == sherpa_args_spec(
            script_path@,
            wav_path@,
            model_type@,
            model_dir@,
            language@,
        ),
{
    let mut r: Vec<String> = Vec::new();
    r.push(String::from_str(script_path));
    r.push(String::from_str("--wav_path"));
    r.push(String::from_str(wav_path));
    r.push(String::from_str("--model_type"));
    r.push(String::from_str(model_type));
    r.push(String::from_str("--model_dir"));
    r.push(String::from_str(model_dir));
    r.push(String::from_str("--language"));
    r.push(String::from_str(language));
    assert(string_views(r@) =~= sherpa_args_spec(
        script_path@,
        wav_path@,
        model_type@,
        model_dir@,
        language@,
    ));
    r
}

/// Half the available processors, at least one; four are assumed when the
/// number is unknown.
pub open spec fn half_cpus_spec(available: Option<usize>) -> int {
    let cpus: int = match available {
        Some(n) => n as int,
        None => 4,
    };
    if cpus / 2 >= 1 {
        cpus / 2
    } else {
        1
    }
}

/// The number of threads for the local model: half the available processors
/// (`available`, unknown when `None`), at least one.
pub fn half_cpus(available: Option<usize>) -> (r: usize)
    ensures
        r == half_cpus_spec(available),
{
    let cpus = match available {
        Some(n) => n,
        None => 4,
    };
    let half = cpus / 2;
    if half >= 1 {
        half
    } else {
        1
    }
}

/// The arguments of the `llama-cli` run that refines a transcript.
pub open spec fn llama_args_spec(
    model_path: Seq<char>,
    system_prompt: Seq<char>,
    user_prompt: Seq<char>,
    threads: usize,
    thinking: bool,
) -> Seq<Seq<char>> {
    seq![
        "--model"@,
        model_path,
        "-sys"@,
        system_prompt,
        "-p"@,
        user_prompt,
        "--n-predict"@,
        "1024"@,
        "--ctx-size"@,
        "4096"@,
        "--temp"@,
        "0.2"@,
        "--threads"@,
        decimal(threads as nat),
        "-st"@,
        "--no-display-prompt"@,
    ] + (if !thinking {
        seq!["--reasoning-budget"@, "0"@]
    } else {
        Seq::empty()
    })
}

/// The arguments of the `llama-cli` run that refines a transcript in a
/// single chat turn; reasoning is switched off unless `thinking` is set.
pub fn llama_cli_args(
    model_path: &str,
    system_prompt: &str,
    user_prompt: &str,
    threads: usize,
    thinking: bool,
) -> (r: Vec<String>)
    ensures
        string_views(r@) == llama_args_spec(model_path@, system_prompt@, user_prompt@, threads, thinking),
{
    let mut r: Vec<String> = Vec::new();
    r.push(String::from_str("--model"));
    r.push(String::from_str(model_path));
    r.push(String::from_str("-sys"));
    r.push(String::from_str(system_prompt));
    r.push(String::from_str("-p"));
    r.push(String::from_str(user_prompt));
    r.push(String::from_str("--n-predict"));
    r.push(String::from_str("1024"));
    r.push(String::from_str("--ctx-size"));
    r.push(String::from_str("4096"));
    r.push(String::from_str("--temp"));
    r.push(String::from_str("0.2"));
    r.push(String::from_str("--threads"));
    r.push(u64_to_string(threads as u64));
    r.push(String::from_str("-st"));
    r.push(String::from_str("--no-display-prompt"));
    if !thinking {
        r.push(String::from_str("--reasoning-budget"));
        r.push(String::from_str("0"));
    }
    assert(string_views(r@) =~= llama_args_spec(
        model_path@,
        system_prompt@,
        user_prompt@,
        threads,
        thinking,
    ));
    r
}

/// The prompts for the local refinement model.
pub struct LocalRefinePrompts {
    pub system_prompt: String,
    pub user_prompt: String,
}

/// The prompts for the local refinement model, for a transcript in the
/// language with code `language`.
pub fn local_refine_prompts(prompt: &str, raw_text: &str, language: &str) -> (r: LocalRefinePrompts)
    ensures
        r.system_prompt@ == local_system_prompt_spec(language_name_spec(language@)),
        r.user_prompt@ == local_user_prompt_spec(prompt@, raw_text@),
{
    let name = get_language_name(language);
    LocalRefinePrompts {
        system_prompt: local_system_prompt(name),
        user_prompt: local_user_prompt(prompt, raw_text),
    }
}

/// The name of the `llama-cli` executable on the platform.
pub fn llama_binary_name(windows: bool) -> (r: &'static str)
    ensures
        r@ == (if windows { "llama-cli.exe"@ } else { "llama-cli"@ }),
{
    if windows {
        "llama-cli.exe"
    } else {
        "llama-cli"
    }
}

/// The llama.cpp release archive for the platform.
pub fn llama_download_url(windows: bool) -> (r: &'static str)
    ensures
        r@ == (if windows {
            "https://github.com/ggml-org/llama.cpp/releases/download/b5618/llama-b5618-bin-win-cpu-x64.zip"@
        } else {
            "https://github.com/ggml-org/llama.cpp/releases/download/b5618/llama-b5618-bin-ubuntu-x64.zip"@
        }),
{
    if windows {
        "https://github.com/ggml-org/llama.cpp/releases/download/b5618/llama-b5618-bin-win-cpu-x64.zip"
    } else {
        "https://github.com/ggml-org/llama.cpp/releases/download/b5618/llama-b5618-bin-ubuntu-x64.zip"
    }
}


/// One step into a JSON document: an object member or an array element.
#[derive(Debug, Clone)]
pub enum JsonStep {
    Key(String),
    Index(usize),
}

/// A step into a JSON document, as plain values.
pub enum JsonStepView {
    Key(Seq<char>),
    Index(usize),
}

/// The views of a path into a JSON document.
pub open spec fn path_view(path: Seq<JsonStep>) -> Seq<JsonStepView> {
    path.map_values(
        |s: JsonStep|
            match s {
                JsonStep::Key(k) => JsonStepView::Key(k@),
                JsonStep::Index(i) => JsonStepView::Index(i),
            },
    )
}

/// A lookup result as plain values.
pub open spec fn lookup_view(r: Result<Result<String, String>, String>) -> Result<Result<Seq<char>, Seq<char>>, Seq<char>> {
    match r {
        Ok(Ok(t)) => Ok(Ok(t@)),
        Ok(Err(d)) => Ok(Err(d@)),
        Err(e) => Err(e@),
    }
}

/// What `serde_json` makes of a document and a path: `Err` with the parse
/// error's message when the bytes are not JSON; otherwise `Ok(Ok(text))`
/// when the value at the path (indexing as `serde_json::Value` does, where
/// a missing member or element is `null`) is a string, and `Ok(Err(debug))`
/// with the `Debug` form of the whole document when it is not.
pub uninterp spec fn json_lookup(body: Seq<u8>, path: Seq<JsonStepView>) -> Result<
    Result<Seq<char>, Seq<char>>,
    Seq<char>,
>;

/// `serde_json::from_slice::<serde_json::Value>` followed by indexing along
/// `path` and `Value::as_str`. The result is a function of the body and the
/// path; what it is, `serde_json` decides.
#[verifier::external_body]
fn json_text_at(body: &[u8], path: &Vec<JsonStep>) -> (r: Result<Result<String, String>, String>)
    ensures
        lookup_view(r) == json_lookup(body@, path_view(path@)),
{
    let doc: serde_json::Value = match serde_json::from_slice(body) {
        Ok(v) => v,
        Err(e) => return Err(e.to_string()),
    };
    let mut cur = &doc;
    for step in path {
        cur = match step {
            JsonStep::Key(k) => &cur[k.as_str()],
            JsonStep::Index(i) => &cur[*i],
        };
    }
    match cur.as_str() {
        Some(t) => Ok(Ok(t.to_string())),
        None => Ok(Err(format!("{:?}", doc))),
    }
}

/// The services whose JSON replies carry a transcript or refined text.
#[derive(Debug, Clone, Copy, PartialEq, Eq, Structural)]
pub enum Service {
    Gemini,
    Ollama,
    OpenAi,
    LmStudio,
    OpenAiCompatible,
}

/// Where a service's reply holds the text.
pub open spec fn service_path(s: Service) -> Seq<JsonStepView> {
    match s {
        Service::Gemini => seq![
            JsonStepView::Key("candidates"@),
            JsonStepView::Index(0),
            JsonStepView::Key("content"@),
            JsonStepView::Key("parts"@),
            JsonStepView::Index(0),
            JsonStepView::Key("text"@),
        ],
        Service::Ollama => seq![JsonStepView::Key("response"@)],
        Service::OpenAi => seq![JsonStepView::Key("text"@)],
        Service::LmStudio => seq![JsonStepView::Key("text"@)],
        Service::OpenAiCompatible => seq![
            JsonStepView::Key("choices"@),
            JsonStepView::Index(0),
            JsonStepView::Key("message"@),
            JsonStepView::Key("content"@),
        ],
    }
}

/// The start of the error when a service's reply is not JSON.
pub open spec fn parse_error_prefix(s: Service) -> Seq<char> {
    match s {
        Service::Gemini => "Failed to parse Gemini response: "@,
        Service::Ollama => "Failed to parse Ollama response: "@,
        Service::OpenAi => "Failed to parse OpenAI response: "@,
        Service::LmStudio => "Failed to parse LM Studio response: "@,
        Service::OpenAiCompatible => "Failed to parse response JSON: "@,
    }
}

/// The start of the error when a service's reply lacks the text.
pub open spec fn structure_error_prefix(s: Service) -> Seq<char> {
    match s {
        Service::Gemini => "Unexpected Gemini response structure. Response: "@,
        Service::Ollama => "Unexpected Ollama response structure. Response: "@,
        Service::OpenAi => "Unexpected OpenAI response structure. Response: "@,
        Service::LmStudio => "Unexpected LM Studio response structure. Response: "@,
        Service::OpenAiCompatible => "Unexpected API response structure. Response: "@,
    }
}

fn service_path_exec(s: Service) -> (r: Vec<JsonStep>)
    ensures
        path_view(r@) == service_path(s),
{
    let mut r: Vec<JsonStep> = Vec::new();
    match s {
        Service::Gemini => {
            r.push(JsonStep::Key(String::from_str("candidates")));
            r.push(JsonStep::Index(0));
            r.push(JsonStep::Key(String::from_str("content")));
            r.push(JsonStep::Key(String::from_str("parts")));
            r.push(JsonStep::Index(0));
            r.push(JsonStep::Key(String::from_str("text")));
        },
        Service::Ollama => {
            r.push(JsonStep::Key(String::from_str("response")));
        },
        Service::OpenAi | Service::LmStudio => {
            r.push(JsonStep::Key(String::from_str("text")));
        },
        Service::OpenAiCompatible => {
            r.push(JsonStep::Key(String::from_str("choices")));
            r.push(JsonStep::Index(0));
            r.push(JsonStep::Key(String::from_str("message")));
            r.push(JsonStep::Key(String::from_str("content")));
        },
    }
    assert(path_view(r@) =~= service_path(s));
    r
}

/// How a reply body that is not JSON is reported, in the words the HTTP
/// client uses for a body it cannot decode.
pub const UNDECODABLE_BODY: &'static str = "error decoding response body";

/// The text a service returned, from the lookup of its reply: the text
/// trimmed; otherwise an error that names the service and either says that
/// the body could not be decoded or quotes the reply.
pub open spec fn reply_text_spec(s: Service, lookup: Result<Result<Seq<char>, Seq<char>>, Seq<char>>) -> Result<
    Seq<char>,
    Seq<char>,
> {
    match lookup {
        Ok(Ok(t)) => Ok(trim_seq(t)),
        Ok(Err(debug)) => Err(structure_error_prefix(s) + debug),
        Err(_) => Err(parse_error_prefix(s) + UNDECODABLE_BODY@),
    }
}

/// A result as plain values.
pub open spec fn text_result_view(r: Result<String, String>) -> Result<Seq<char>, Seq<char>> {
    match r {
        Ok(t) => Ok(t@),
        Err(e) => Err(e@),
    }
}

/// The text a service returned, given the lookup of its reply.
pub fn reply_text_from(s: Service, lookup: Result<Result<String, String>, String>) -> (r: Result<String, String>)
    ensures
        text_result_view(r) == reply_text_spec(s, lookup_view(lookup)),
{
    let (parse_prefix, structure_prefix) = match s {
        Service::Gemini => ("Failed to parse Gemini response: ", "Unexpected Gemini response structure. Response: "),
        Service::Ollama => ("Failed to parse Ollama response: ", "Unexpected Ollama response structure. Response: "),
        Service::OpenAi => ("Failed to parse OpenAI response: ", "Unexpected OpenAI response structure. Response: "),
        Service::LmStudio => ("Failed to parse LM Studio response: ", "Unexpected LM Studio response structure. Response: "),
        Service::OpenAiCompatible => ("Failed to parse response JSON: ", "Unexpected API response structure. Response: "),
    };
    match lookup {
        Ok(Ok(t)) => Ok(trim(t.as_str())),
        Ok(Err(debug)) => {
            let mut e = String::from_str(structure_prefix);
            e.append(debug.as_str());
            Err(e)
        },
        Err(_) => {
            let mut e = String::from_str(parse_prefix);
            e.append(UNDECODABLE_BODY);
            Err(e)
        },
    }
}

/// The text in a service's JSON reply `body`.
pub fn reply_text(s: Service, body: &[u8]) -> (r: Result<String, String>)
    ensures
        text_result_view(r) == reply_text_spec(s, json_lookup(body@, service_path(s))),
{
    let path = service_path_exec(s);
    let lookup = json_text_at(body, &path);
    reply_text_from(s, lookup)
}

/// The transcript printed by the sherpa-onnx script, given the lookups of
/// its `error` and `text` members: a parse failure or a reported error is
/// an error, a text is trimmed, anything else is an invalid reply.
pub open spec fn sherpa_outcome_spec(
    error_field: Result<Result<Seq<char>, Seq<char>>, Seq<char>>,
    text_field: Result<Result<Seq<char>, Seq<char>>, Seq<char>>,
    stdout: Seq<char>,
) -> Result<Seq<char>, Seq<char>> {
    match error_field {
        Err(e) => Err("Failed to parse transcription script output JSON: "@ + e + ". Raw output: "@ + stdout),
        Ok(Ok(message)) => Err("Error from transcription engine: "@ + message),
        Ok(Err(_)) => match text_field {
            Ok(Ok(t)) => Ok(trim_seq(t)),
            _ => Err("Invalid response format from script. Raw output: "@ + stdout),
        },
    }
}

/// The transcript printed by the sherpa-onnx script, given the lookups of
/// its `error` and `text` members.
pub fn sherpa_outcome(
    error_field: Result<Result<String, String>, String>,
    text_field: Result<Result<String, String>, String>,
    stdout: &str,
) -> (r: Result<String, String>)
    ensures
        text_result_view(r) == sherpa_outcome_spec(lookup_view(error_field), lookup_view(text_field), stdout@),
{
    match error_field {
        Err(e) => {
            let mut m = String::from_str("Failed to parse transcription script output JSON: ");
            m.append(e.as_str());
            m.append(". Raw output: ");
            m.append(stdout);
            Err(m)
        },
        Ok(Ok(message)) => {
            let mut m = String::from_str("Error from transcription engine: ");
            m.append(message.as_str());
            Err(m)
        },
        Ok(Err(_)) => match text_field {
            Ok(Ok(t)) => Ok(trim(t.as_str())),
            _ => {
                let mut m = String::from_str("Invalid response format from script. Raw output: ");
                m.append(stdout);
                Err(m)
            },
        },
    }
}

/// The transcript printed by the sherpa-onnx script on its standard output.
pub fn sherpa_transcript(stdout: &str) -> (r: Result<String, String>)
    ensures
        text_result_view(r) == sherpa_outcome_spec(
            json_lookup(stdout.spec_bytes(), seq![JsonStepView::Key("error"@)]),
            json_lookup(stdout.spec_bytes(), seq![JsonStepView::Key("text"@)]),
            stdout@,
        ),
{
    let bytes = stdout.as_bytes();
    let mut error_path: Vec<JsonStep> = Vec::new();
    error_path.push(JsonStep::Key(String::from_str("error")));
    let mut text_path: Vec<JsonStep> = Vec::new();
    text_path.push(JsonStep::Key(String::from_str("text")));
    assert(path_view(error_path@) =~= seq![JsonStepView::Key("error"@)]);
    assert(path_view(text_path@) =~= seq![JsonStepView::Key("text"@)]);
    let error_field = json_text_at(bytes, &error_path);
    let text_field = json_text_at(bytes, &text_path);
    sherpa_outcome(error_field, text_field, stdout)
}

} // verus!
