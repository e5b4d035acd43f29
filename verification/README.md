# varnavinyas

A checker for Nepali orthography after the Nepal Academy's rules, written in
Verus: each function's behaviour is stated in its `requires` / `ensures`
contract and proved.

## What it does

* `engine::derive` and `checker::check_word` correct one word: the Academy's
  word rules (short and long vowels, chandrabindu, halanta, sibilants, ब/व,
  ऋ/रि, य/ए, क्ष/छ्य, ज्ञ/ग्य, the correction table) are tried in priority
  order, and the first that applies gives the correction.
* `checker::check_text` and `checker::check_text_with_options` check a whole
  text: word findings on each token (with case markers, particles and plural
  markers detached), oblique forms (तिर्यक्), the joins and splits of words
  (पदयोग / पदवियोग), the optative होस्, optional Section 4 style
  suggestions, and the punctuation findings handed in; the findings come back
  ordered by where they start. In the common-editorial orthography mode
  (`checker::OrthographyMode::CommonEditorial`) the reviewed common forms
  (संघीय, कांग्रेस, संसद) and anusvara spellings of a panchham varna before a
  stop are editorial variants rather than errors; punctuation findings keep
  their severity.
* `analysis::analyze` explains a word: its derivation, the notes that apply,
  and the origin class the lexicon records.

The word list, with the origin classes and morphological analyses of
words, is a value of `lexicon::Lexicon` that the caller builds and passes
in; punctuation findings come in as `checker::PunctuationFinding` values.

## Limits

* Eighteen pattern rules are registered (`registry::pattern_rules`). The
  short/long-vowel rules for prefixes (`hd-prefix-hrasva`,
  `hd-dvi-tri-hrasva`), for the initial syllable by word class
  (`hd-initial-name-hrasva`, `hd-initial-aagantuk-hrasva`,
  `hd-initial-adjective-hrasva`, `hd-initial-number-hrasva`,
  `hd-initial-avyaya-hrasva`, `hd-initial-onomatopoeic-hrasva`), for medial
  syllables (the seven `hd-medial-*` rules), `hd-su-prefix-preserves-dirgha`,
  `hd-suffix-family-preserves-dirgha`, `hd-pronoun`,
  `hd-final-ii-suffix-dirgha`, `hd-final-hrasva-endings` and
  `ortho-aadhi-vriddhi` are not implemented. Words that they would correct
  (सूमार्ग, अभीमान, ऊन्नाइस, कीसान) are corrected, if at all, by the general
  fallback rules under those rules' citations, and a word that the
  correction table also lists (भाउजु) gets the table's citation.
* Word origins come from the lexicon alone. A word whose origin the lexicon
  does not record gets no correction from the origin-dependent rules
  (sibilants, chandrabindu, the tatsam halanta rules, panchham varna).
* Morphological analyses are data of the lexicon too (`Lexicon::analyses`):
  for each word form the caller records, the stem of its best analysis. A
  recorded analysis splits the token at its stem, carries a finding on the
  stem over to the whole word, and makes the form acceptable wherever the
  checker asks whether a candidate is attested or analysable. Forms the
  caller does not record are not analysed.
* There is no grammar pass (word classes, compounds), and no preference for
  a whole word over a split into a short particle.
* Punctuation is not checked here: its findings are handed in.
* `analysis::analyze` reports the origin class the lexicon records, without a
  source, a confidence or a source language.

## Layout

* `src/` — the verified library, one module per rule family or pass;
  `text.rs` holds the character-level operations with their meaning over
  `Seq<char>`.
* `tests/` — tests of the library on concrete texts and words.
* `app/` — serialisable copies of the presentation types (serde) and the
  error types with `std::error::Error` (thiserror), with conversions both
  ways.
