//! Section 4 style suggestions: phrasings the Academy prefers, offered as
//! variants when grammar suggestions are asked for.
use vstd::prelude::*;

use crate::affix::{
    AnalyzedToken, AnalyzedTokenView, analyzed_tokens_of, analyzed_view, lemma_analyzed_sorted,
    lemma_analyzed_well_formed, surface,
};
use crate::common::{
    devanagari_word, diags_view, is_devanagari_word, is_word_boundary, overlaps_existing_span,
    overlaps_span, span_listed, spans_view, word_boundary,
};
use crate::diagnostic::{Diagnostic, DiagnosticCategory, DiagnosticView, reasons_view};
use crate::lexicon::Lexicon;
use crate::padayog::match_positions;
use crate::rule::{DiagnosticKind, ExplanationView, Rule, RuleView};
use crate::text::{
    byte_len, byte_offset, byte_slice, char_count, chars_of, concat, ends_with, find_from,
    is_suffix, lemma_byte_len_concat, lemma_byte_len_take_mono, lemma_find_from, owned,
    slice_bytes, str_byte_len, str_eq, strip_suffix, take_chars, vec_find_from,
};
use crate::tiryak::{PassState, state_of};
use crate::tokenizer::{is_white_space, white_space};

verus! {

broadcast use vstd::string::group_string_axioms;

// ----- the table of style variants -----

/// The style variants: the phrasing found, the phrasing preferred, and why.
pub open spec fn style_table() -> Seq<(Seq<char>, Seq<char>, Seq<char>)> {
    seq![
        ("मर्माहित भएको"@, "मर्माहत भएको"@, "शब्द-रूपगत प्रयोगमा मर्माहत रूप उपयुक्त हुन्छ"@),
        ("निर्देशित गरेको"@, "निर्देशन गरेको"@, "पदावली प्रयोगमा निर्देशन रूप उपयुक्त हुन्छ"@),
        ("इमानदारिता देखाउनु"@, "इमानदारी देखाउनु"@, "पदावली प्रयोगमा इमानदारी रूप प्रचलित छ"@),
        ("भन्नुभएको कुरा"@, "भनेको कुरा"@, "पदावली प्रयोगमा भनेको रूप सिफारिस गरिन्छ"@),
        ("पढ्नुभएको किताब"@, "पढेको किताब"@, "पदावली प्रयोगमा पढेको रूप सिफारिस गरिन्छ"@),
        ("कार्यक्रमको सम्बन्धमा"@, "कार्यक्रमका सम्बन्धमा"@, "सम्बन्धमा अघि बहुवचन कारकमा का उपयुक्त हुन्छ"@),
        ("सूचनाको आधारमा"@, "सूचनाका आधारमा"@, "आधारमा अघि बहुवचन कारकमा का उपयुक्त हुन्छ"@),
        ("उपस्थितिको बारेमा"@, "उपस्थितिका बारेमा"@, "बारेमा अघि बहुवचन कारकमा का उपयुक्त हुन्छ"@),
        ("अपहरित भएको"@, "अपहरण भएको"@, "प्रयोगगत रूपमा अपहरण भएको सिफारिस गरिन्छ"@),
        ("संरक्षित गरिएको"@, "संरक्षण गरिएको"@, "प्रयोगगत रूपमा संरक्षण गरिएको सिफारिस गरिन्छ"@),
        ("प्रसारित गरिएको"@, "प्रसारण गरिएको"@, "प्रयोगगत रूपमा प्रसारण गरिएको सिफारिस गरिन्छ"@),
        ("कामको लागि"@, "कामका लागि"@, "प्रयोगगत रूपमा कामका लागि सिफारिस गरिन्छ"@),
        ("देशको निम्ति"@, "देशका निम्ति"@, "प्रयोगगत रूपमा देशका निम्ति सिफारिस गरिन्छ"@),
        ("म सबैलाई हार्दिक स्वागत गर्न चाहन्छु"@, "म सबैलाई हार्दिक स्वागत गर्छु"@, "वक्तव्य शैलीमा प्रत्यक्ष स्वागत गर्छु रूप स्पष्ट हुन्छ"@),
        ("म अब कार्यक्रम सञ्चालन गर्न गइरहेको छु वा जाँदै छु"@, "म अब कार्यक्रम सञ्चालन गर्दै छु"@, "वाक्यगत सटीकता: सञ्चालन गर्दै छु रूप स्पष्ट र संक्षिप्त हुन्छ"@),
        ("अब यो प्रसारणका प्रमुख समाचारहरू सुन्नुहोस्"@, "अब यस प्रसारणका प्रमुख समाचारहरू सुन्नुहोस्"@, "तिर्यक् कारक प्रसङ्गमा यो -> यस रूप उपयुक्त हुन्छ"@),
        ("म यस कार्यक्रम यहाँ अन्त्य गर्दछु"@, "म यो कार्यक्रम यहीँ अन्त्य गर्दछु"@, "सरल कारक प्रयोगमा यो/यहीँ रूप उपयुक्त हुन्छ"@),
        ("लाखौँ नेपालका जनता गरिबीको रेखामुनि छन्"@, "नेपालका लाखौँ जनता गरिबीको रेखामुनि छन्"@, "पदक्रम मिलाउन नेपालका लाखौँ जनता रूप उपयुक्त हुन्छ"@),
        ("नेपाल मानव अधिकार आयोगद्वारा आयोजित टीकापुर हत्याकाण्डसम्बन्धी छलफल कार्यक्रममा मन्त्रीज्यूले पनि बोल्नुभयो"@, "टीकापुर हत्याकाण्डसम्बन्धी नेपाल मानव अधिकार आयोगद्वारा आयोजित छलफल कार्यक्रममा मन्त्रीज्यूले पनि बोल्नुभयो"@, "वाक्यगत अर्थ-स्पष्टताका लागि घटकहरूको पदक्रम मिलाउनु उपयुक्त हुन्छ"@),
        ("स्थानीय जनशक्तिको श्रमदानबाट दश किलोमिटर लामो गाडी गुड्न सक्ने सडक निर्माण गरियो"@, "स्थानीय जनशक्तिको श्रमदानबाट गाडी गुड्न सक्ने दश किलोमिटर लामो सडक निर्माण गरियो"@, "वाक्यमा विशेषण/विशेष्यको सम्बन्ध स्पष्ट राख्न पदक्रम मिलाउनु उपयुक्त हुन्छ"@),
        ("यहाँको सहयोगप्रति म कृतघ्न छु"@, "यहाँको सहयोगप्रति म कृतज्ञ छु"@, "कृतघ्न र कृतज्ञ अर्थ भिन्न छन्"@),
        ("ऊ राजनीतिमा निर्लिप्त छ"@, "ऊ राजनीतिमा लिप्त छ"@, "निर्लिप्त र लिप्त अर्थ भिन्न छन्"@),
    ]
}

fn style_entry(k: usize) -> (r: (&'static str, &'static str, &'static str))
    requires
        k < 22,
    ensures
        (r.0@, r.1@, r.2@) == style_table()[k as int],
{
    if k == 0 {
        ("मर्माहित भएको", "मर्माहत भएको", "शब्द-रूपगत प्रयोगमा मर्माहत रूप उपयुक्त हुन्छ")
    } else if k == 1 {
        ("निर्देशित गरेको", "निर्देशन गरेको", "पदावली प्रयोगमा निर्देशन रूप उपयुक्त हुन्छ")
    } else if k == 2 {
        ("इमानदारिता देखाउनु", "इमानदारी देखाउनु", "पदावली प्रयोगमा इमानदारी रूप प्रचलित छ")
    } else if k == 3 {
        ("भन्नुभएको कुरा", "भनेको कुरा", "पदावली प्रयोगमा भनेको रूप सिफारिस गरिन्छ")
    } else if k == 4 {
        ("पढ्नुभएको किताब", "पढेको किताब", "पदावली प्रयोगमा पढेको रूप सिफारिस गरिन्छ")
    } else if k == 5 {
        ("कार्यक्रमको सम्बन्धमा", "कार्यक्रमका सम्बन्धमा", "सम्बन्धमा अघि बहुवचन कारकमा का उपयुक्त हुन्छ")
    } else if k == 6 {
        ("सूचनाको आधारमा", "सूचनाका आधारमा", "आधारमा अघि बहुवचन कारकमा का उपयुक्त हुन्छ")
    } else if k == 7 {
        ("उपस्थितिको बारेमा", "उपस्थितिका बारेमा", "बारेमा अघि बहुवचन कारकमा का उपयुक्त हुन्छ")
    } else if k == 8 {
        ("अपहरित भएको", "अपहरण भएको", "प्रयोगगत रूपमा अपहरण भएको सिफारिस गरिन्छ")
    } else if k == 9 {
        ("संरक्षित गरिएको", "संरक्षण गरिएको", "प्रयोगगत रूपमा संरक्षण गरिएको सिफारिस गरिन्छ")
    } else if k == 10 {
        ("प्रसारित गरिएको", "प्रसारण गरिएको", "प्रयोगगत रूपमा प्रसारण गरिएको सिफारिस गरिन्छ")
    } else if k == 11 {
        ("कामको लागि", "कामका लागि", "प्रयोगगत रूपमा कामका लागि सिफारिस गरिन्छ")
    } else if k == 12 {
        ("देशको निम्ति", "देशका निम्ति", "प्रयोगगत रूपमा देशका निम्ति सिफारिस गरिन्छ")
    } else if k == 13 {
        ("म सबैलाई हार्दिक स्वागत गर्न चाहन्छु", "म सबैलाई हार्दिक स्वागत गर्छु", "वक्तव्य शैलीमा प्रत्यक्ष स्वागत गर्छु रूप स्पष्ट हुन्छ")
    } else if k == 14 {
        ("म अब कार्यक्रम सञ्चालन गर्न गइरहेको छु वा जाँदै छु", "म अब कार्यक्रम सञ्चालन गर्दै छु", "वाक्यगत सटीकता: सञ्चालन गर्दै छु रूप स्पष्ट र संक्षिप्त हुन्छ")
    } else if k == 15 {
        ("अब यो प्रसारणका प्रमुख समाचारहरू सुन्नुहोस्", "अब यस प्रसारणका प्रमुख समाचारहरू सुन्नुहोस्", "तिर्यक् कारक प्रसङ्गमा यो -> यस रूप उपयुक्त हुन्छ")
    } else if k == 16 {
        ("म यस कार्यक्रम यहाँ अन्त्य गर्दछु", "म यो कार्यक्रम यहीँ अन्त्य गर्दछु", "सरल कारक प्रयोगमा यो/यहीँ रूप उपयुक्त हुन्छ")
    } else if k == 17 {
        ("लाखौँ नेपालका जनता गरिबीको रेखामुनि छन्", "नेपालका लाखौँ जनता गरिबीको रेखामुनि छन्", "पदक्रम मिलाउन नेपालका लाखौँ जनता रूप उपयुक्त हुन्छ")
    } else if k == 18 {
        ("नेपाल मानव अधिकार आयोगद्वारा आयोजित टीकापुर हत्याकाण्डसम्बन्धी छलफल कार्यक्रममा मन्त्रीज्यूले पनि बोल्नुभयो", "टीकापुर हत्याकाण्डसम्बन्धी नेपाल मानव अधिकार आयोगद्वारा आयोजित छलफल कार्यक्रममा मन्त्रीज्यूले पनि बोल्नुभयो", "वाक्यगत अर्थ-स्पष्टताका लागि घटकहरूको पदक्रम मिलाउनु उपयुक्त हुन्छ")
    } else if k == 19 {
        ("स्थानीय जनशक्तिको श्रमदानबाट दश किलोमिटर लामो गाडी गुड्न सक्ने सडक निर्माण गरियो", "स्थानीय जनशक्तिको श्रमदानबाट गाडी गुड्न सक्ने दश किलोमिटर लामो सडक निर्माण गरियो", "वाक्यमा विशेषण/विशेष्यको सम्बन्ध स्पष्ट राख्न पदक्रम मिलाउनु उपयुक्त हुन्छ")
    } else if k == 20 {
        ("यहाँको सहयोगप्रति म कृतघ्न छु", "यहाँको सहयोगप्रति म कृतज्ञ छु", "कृतघ्न र कृतज्ञ अर्थ भिन्न छन्")
    } else {
        ("ऊ राजनीतिमा निर्लिप्त छ", "ऊ राजनीतिमा लिप्त छ", "निर्लिप्त र लिप्त अर्थ भिन्न छन्")
    }
}

/// The finding a style variant gives for the bytes `span`.
pub open spec fn style_finding(e: (Seq<char>, Seq<char>, Seq<char>), span: (int, int)) -> DiagnosticView {
    DiagnosticView {
        span,
        incorrect: e.0,
        correction: e.1,
        rule: RuleView::Vyakaran("section4-phrase-style"@),
        explanation: "Section 4 शैली सुझाव: "@ + e.2,
        category: DiagnosticCategory::ShuddhaTable,
        kind: DiagnosticKind::Variant,
        confidence_permille: 780,
        alternate_reasons: seq![],
    }
}

/// The state after the occurrence of style variant `e` at char `m` of
/// `text`: reported when its span is free and it stands as whole words.
pub open spec fn style_occurrence(text: Seq<char>, e: (Seq<char>, Seq<char>, Seq<char>), st: PassState, m: int) -> PassState {
    let b = byte_len(text.take(m)) as int;
    let span = (b, b + byte_len(e.0));
    if st.blocked.contains(span) || overlaps_span(st.diags, span) || !word_boundary(text, span.0, span.1) {
        st
    } else {
        PassState { diags: st.diags.push(style_finding(e, span)), blocked: st.blocked.push(span) }
    }
}

/// The occurrences `ms` of `e`, offered in order.
pub open spec fn style_occurrences(text: Seq<char>, e: (Seq<char>, Seq<char>, Seq<char>), st: PassState, ms: Seq<int>) -> PassState
    decreases ms.len(),
{
    if ms.len() == 0 {
        st
    } else {
        style_occurrence(text, e, style_occurrences(text, e, st, ms.drop_last()), ms.last())
    }
}

/// The style variants `es`, each at every place it occurs, in order.
pub open spec fn style_table_pass(text: Seq<char>, es: Seq<(Seq<char>, Seq<char>, Seq<char>)>, st: PassState) -> PassState
    decreases es.len(),
{
    if es.len() == 0 {
        st
    } else {
        style_occurrences(text, es.last(), style_table_pass(text, es.drop_last(), st), match_positions(text, es.last().0, 0))
    }
}

proof fn lemma_find_bounds(s: Seq<char>, pat: Seq<char>, i: int)
    requires
        0 <= i,
        pat.len() > 0,
    ensures
        find_from(s, pat, i) >= 0 ==> i <= find_from(s, pat, i) && find_from(s, pat, i) + pat.len() <= s.len(),
{
    lemma_find_from(s, pat, i);
}

fn apply_style_entry(
    text: &str,
    v: &Vec<char>,
    k: usize,
    blocked: &mut Vec<(usize, usize)>,
    diagnostics: &mut Vec<Diagnostic>,
)
    requires
        v@ == text@,
        k < 22,
    ensures
        state_of(final(diagnostics)@, final(blocked)@) == style_occurrences(
            text@,
            style_table()[k as int],
            state_of(old(diagnostics)@, old(blocked)@),
            match_positions(text@, style_table()[k as int].0, 0),
        ),
{
    let (incorrect, correct, why) = style_entry(k);
    let ghost e = style_table()[k as int];
    let pat = chars_of(incorrect);
    let ghost all = match_positions(text@, e.0, 0);
    let ghost st0 = state_of(diagnostics@, blocked@);
    if pat.len() == 0 {
        return;
    }
    let plen = str_byte_len(incorrect);
    let total = str_byte_len(text);
    let ghost mut done: Seq<int> = seq![];
    let mut i: usize = 0;
    let mut finished = false;
    while !finished && i <= v.len()
        invariant
            finished ==> match_positions(text@, e.0, i as int) =~= Seq::<int>::empty(),
            v@ == text@,
            pat@ == e.0,
            incorrect@ == e.0,
            correct@ == e.1,
            why@ == e.2,
            pat.len() > 0,
            i <= v.len() + 1,
            plen == byte_len(e.0),
            total == byte_len(text@),
            done + match_positions(text@, e.0, i as int) == all,
            state_of(diagnostics@, blocked@) == style_occurrences(text@, e, st0, done),
        decreases (v.len() + 1 - i) * 2 + (if finished { 0int } else { 1int }),
    {
        proof {
            lemma_find_bounds(text@, e.0, i as int);
            lemma_find_from(text@, e.0, i as int);
        }
        match vec_find_from(v, &pat, i) {
            None => {
                finished = true;
            },
            Some(m) => {
                let b = byte_offset(text, v, m);
                proof {
                    lemma_byte_len_concat(text@.take(m as int), e.0);
                    assert(text@.subrange(m as int, m + pat.len()) == e.0);
                    assert(text@.take(m as int) + text@.subrange(m as int, m + pat.len()) =~= text@.take(m + pat.len()));
                    lemma_byte_len_take_mono(text@, m + pat.len(), text@.len() as int);
                    assert(text@.take(text@.len() as int) =~= text@);
                }
                let span = (b, b + plen);
                let ghost mm = m as int;
                if !span_listed(blocked, span) && !overlaps_existing_span(diagnostics, span)
                    && is_word_boundary(text, span.0, span.1) {
                    let ghost d0 = diagnostics@;
                    let ghost b0 = blocked@;
                    let d = Diagnostic {
                        span,
                        incorrect: owned(incorrect),
                        correction: owned(correct),
                        rule: Rule::Vyakaran("section4-phrase-style"),
                        explanation: concat("Section 4 शैली सुझाव: ", why),
                        category: DiagnosticCategory::ShuddhaTable,
                        kind: DiagnosticKind::Variant,
                        confidence_permille: 780,
                        alternate_reasons: Vec::new(),
                    };
                    assert(reasons_view(d.alternate_reasons@) =~= Seq::<ExplanationView>::empty());
                    let ghost dv = d@;
                    diagnostics.push(d);
                    blocked.push(span);
                    proof {
                        assert(diags_view(diagnostics@) =~= diags_view(d0).push(dv));
                        assert(spans_view(blocked@) =~= spans_view(b0).push((span.0 as int, span.1 as int)));
                    }
                }
                proof {
                    assert(done.push(mm).drop_last() =~= done);
                    assert(seq![mm] + match_positions(text@, e.0, mm + pat.len()) == match_positions(text@, e.0, i as int));
                    assert(done.push(mm) + match_positions(text@, e.0, mm + pat.len()) =~= done + match_positions(text@, e.0, i as int));
                    done = done.push(mm);
                }
                i = m + pat.len();
            },
        }
    }
    proof {
        if !finished {
            assert(find_from(text@, e.0, i as int) == -1);
        }
    }
    assert(done =~= all);
}

// ----- -को before लागि, निम्ति, सम्बन्धमा, आधारमा, बारेमा -----

/// The words before which -का is preferred to -को, with why.
pub open spec fn ko_ka_followers() -> Seq<(Seq<char>, Seq<char>)> {
    seq![("लागि"@, "लागि अघि -को भन्दा -का शैलीगत रूपमा उपयुक्त मानिन्छ"@), ("निम्ति"@, "निम्ति अघि -को भन्दा -का शैलीगत रूपमा उपयुक्त मानिन्छ"@), ("सम्बन्धमा"@, "सम्बन्धमा अघि -को भन्दा -का शैलीगत रूपमा उपयुक्त मानिन्छ"@), ("आधारमा"@, "आधारमा अघि -को भन्दा -का शैलीगत रूपमा उपयुक्त मानिन्छ"@), ("बारेमा"@, "बारेमा अघि -को भन्दा -का शैलीगत रूपमा उपयुक्त मानिन्छ"@)]
}

fn ko_ka_follower(k: usize) -> (r: (&'static str, &'static str))
    requires
        k < 5,
    ensures
        (r.0@, r.1@) == ko_ka_followers()[k as int],
{
    if k == 0 {
        ("लागि", "लागि अघि -को भन्दा -का शैलीगत रूपमा उपयुक्त मानिन्छ")
    } else if k == 1 {
        ("निम्ति", "निम्ति अघि -को भन्दा -का शैलीगत रूपमा उपयुक्त मानिन्छ")
    } else if k == 2 {
        ("सम्बन्धमा", "सम्बन्धमा अघि -को भन्दा -का शैलीगत रूपमा उपयुक्त मानिन्छ")
    } else if k == 3 {
        ("आधारमा", "आधारमा अघि -को भन्दा -का शैलीगत रूपमा उपयुक्त मानिन्छ")
    } else {
        ("बारेमा", "बारेमा अघि -को भन्दा -का शैलीगत रूपमा उपयुक्त मानिन्छ")
    }
}

/// The first follower from index `k` on that is `w`, with its explanation.
pub open spec fn follower_from(w: Seq<char>, k: int) -> Option<Seq<char>>
    decreases 5 - k,
{
    if k < 0 || k >= 5 {
        None
    } else if ko_ka_followers()[k].0 == w {
        Some(ko_ka_followers()[k].1)
    } else {
        follower_from(w, k + 1)
    }
}

/// -का is preferred to -को before exactly the five followers लागि, निम्ति,
/// सम्बन्धमा, आधारमा and बारेमा, and the reason given names the follower.
pub proof fn lemma_ko_ka_followers_are_the_five(w: Seq<char>)
    ensures
        follower_from(w, 0) is Some <==> (w == "लागि"@ || w == "निम्ति"@ || w == "सम्बन्धमा"@ || w
            == "आधारमा"@ || w == "बारेमा"@),
        follower_from(w, 0) is Some ==> follower_from(w, 0)->Some_0 == w
            + " अघि -को भन्दा -का शैलीगत रूपमा उपयुक्त मानिन्छ"@,
{
    reveal_strlit("लागि");
    reveal_strlit("निम्ति");
    reveal_strlit("सम्बन्धमा");
    reveal_strlit("आधारमा");
    reveal_strlit("बारेमा");
    reveal_strlit(" अघि -को भन्दा -का शैलीगत रूपमा उपयुक्त मानिन्छ");
    reveal_strlit("लागि अघि -को भन्दा -का शैलीगत रूपमा उपयुक्त मानिन्छ");
    reveal_strlit("निम्ति अघि -को भन्दा -का शैलीगत रूपमा उपयुक्त मानिन्छ");
    reveal_strlit("सम्बन्धमा अघि -को भन्दा -का शैलीगत रूपमा उपयुक्त मानिन्छ");
    reveal_strlit("आधारमा अघि -को भन्दा -का शैलीगत रूपमा उपयुक्त मानिन्छ");
    reveal_strlit("बारेमा अघि -को भन्दा -का शैलीगत रूपमा उपयुक्त मानिन्छ");
    reveal_with_fuel(follower_from, 6);
    let tail = " अघि -को भन्दा -का शैलीगत रूपमा उपयुक्त मानिन्छ"@;
    assert("लागि अघि -को भन्दा -का शैलीगत रूपमा उपयुक्त मानिन्छ"@ =~= "लागि"@ + tail);
    assert("निम्ति अघि -को भन्दा -का शैलीगत रूपमा उपयुक्त मानिन्छ"@ =~= "निम्ति"@ + tail);
    assert("सम्बन्धमा अघि -को भन्दा -का शैलीगत रूपमा उपयुक्त मानिन्छ"@ =~= "सम्बन्धमा"@ + tail);
    assert("आधारमा अघि -को भन्दा -का शैलीगत रूपमा उपयुक्त मानिन्छ"@ =~= "आधारमा"@ + tail);
    assert("बारेमा अघि -को भन्दा -का शैलीगत रूपमा उपयुक्त मानिन्छ"@ =~= "बारेमा"@ + tail);
}

fn find_follower(w: &str) -> (r: Option<&'static str>)
    ensures
        match r {
            Some(x) => follower_from(w@, 0) == Some(x@),
            None => follower_from(w@, 0) is None,
        },
{
    let mut k: usize = 0;
    while k < 5
        invariant
            k <= 5,
            follower_from(w@, 0) == follower_from(w@, k as int),
        decreases 5 - k,
    {
        let (f, why) = ko_ka_follower(k);
        if str_eq(f, w) {
            return Some(why);
        }
        k = k + 1;
    }
    None
}

/// `s` holds a white-space char.
pub open spec fn has_white_space(s: Seq<char>) -> bool {
    exists|i: int| 0 <= i < s.len() && #[trigger] is_white_space(s[i])
}

fn holds_white_space(s: &str) -> (r: bool)
    ensures
        r == has_white_space(s@),
{
    let v = chars_of(s);
    let mut i: usize = 0;
    while i < v.len()
        invariant
            i <= v.len(),
            v@ == s@,
            forall|j: int| 0 <= j < i ==> !#[trigger] is_white_space(s@[j]),
        decreases v.len() - i,
    {
        if white_space(v[i]) {
            return true;
        }
        i = i + 1;
    }
    false
}

/// The inferred finding for the neighbouring tokens `l` and `r` of `text`:
/// two Devanagari words apart, the first ending in -को after something, the
/// second a listed follower; -को is suggested as -का.
pub open spec fn ko_ka_finding(text: Seq<char>, l: AnalyzedTokenView, r: AnalyzedTokenView) -> Option<DiagnosticView> {
    let ls = surface(l);
    let rs = surface(r);
    let base = strip_suffix(ls, "को"@);
    if devanagari_word(ls) && devanagari_word(rs) && has_white_space(byte_slice(text, l.end, r.start))
        && is_suffix("को"@, ls) && base.len() > 0 && follower_from(rs, 0) is Some {
        Some(DiagnosticView {
            span: (l.start, r.end),
            incorrect: byte_slice(text, l.start, r.end),
            correction: base + "का "@ + rs,
            rule: RuleView::Vyakaran("section4-phrase-style-inferred-ko-ka"@),
            explanation: "Section 4 पदावली शैली सुझाव (अनुमित): "@ + follower_from(rs, 0)->Some_0,
            category: DiagnosticCategory::ShuddhaTable,
            kind: DiagnosticKind::Variant,
            confidence_permille: 700,
            alternate_reasons: seq![],
        })
    } else {
        None
    }
}

/// The state after the inferred finding for `l` and `r`, if any: reported
/// when its span is free and stands as whole words.
pub open spec fn ko_ka_step(text: Seq<char>, st: PassState, l: AnalyzedTokenView, r: AnalyzedTokenView) -> PassState {
    match ko_ka_finding(text, l, r) {
        Some(d) => if st.blocked.contains(d.span) || overlaps_span(st.diags, d.span) || !word_boundary(text, d.span.0, d.span.1) {
            st
        } else {
            PassState { diags: st.diags.push(d), blocked: st.blocked.push(d.span) }
        },
        None => st,
    }
}

/// The inferred findings of each pair of neighbouring tokens of `toks`, in order.
pub open spec fn ko_ka_pass(text: Seq<char>, toks: Seq<AnalyzedTokenView>, st: PassState) -> PassState
    decreases toks.len(),
{
    if toks.len() < 2 {
        st
    } else {
        ko_ka_step(text, ko_ka_pass(text, toks.drop_last(), st), toks[toks.len() - 2], toks.last())
    }
}

fn ko_ka_candidate(text: &str, l: &AnalyzedToken, r: &AnalyzedToken) -> (o: Option<Diagnostic>)
    requires
        l.start <= l.end <= r.start <= r.end,
    ensures
        match o {
            Some(d) => ko_ka_finding(text@, l@, r@) == Some(d@),
            None => ko_ka_finding(text@, l@, r@) is None,
        },
{
    let ls = l.surface();
    let rs = r.surface();
    if !is_devanagari_word(ls.as_str()) || !is_devanagari_word(rs.as_str()) {
        return None;
    }
    if !holds_white_space(slice_bytes(text, l.end, r.start).as_str()) {
        return None;
    }
    if !ends_with(ls.as_str(), "को") {
        return None;
    }
    let base = take_chars(ls.as_str(), char_count(ls.as_str()) - char_count("को"));
    if char_count(base.as_str()) == 0 {
        return None;
    }
    match find_follower(rs.as_str()) {
        Some(why) => {
            let a = concat(base.as_str(), "का ");
            let d = Diagnostic {
                span: (l.start, r.end),
                incorrect: slice_bytes(text, l.start, r.end),
                correction: concat(a.as_str(), rs.as_str()),
                rule: Rule::Vyakaran("section4-phrase-style-inferred-ko-ka"),
                explanation: concat("Section 4 पदावली शैली सुझाव (अनुमित): ", why),
                category: DiagnosticCategory::ShuddhaTable,
                kind: DiagnosticKind::Variant,
                confidence_permille: 700,
                alternate_reasons: Vec::new(),
            };
            assert(reasons_view(d.alternate_reasons@) =~= Seq::<ExplanationView>::empty());
            Some(d)
        },
        None => None,
    }
}

fn apply_ko_ka(
    text: &str,
    l: &AnalyzedToken,
    r: &AnalyzedToken,
    blocked: &mut Vec<(usize, usize)>,
    diagnostics: &mut Vec<Diagnostic>,
)
    requires
        l.start <= l.end <= r.start <= r.end,
    ensures
        state_of(final(diagnostics)@, final(blocked)@) == ko_ka_step(text@, state_of(old(diagnostics)@, old(blocked)@), l@, r@),
{
    if let Some(d) = ko_ka_candidate(text, l, r) {
        let span = d.span;
        if !span_listed(blocked, span) && !overlaps_existing_span(diagnostics, span) && is_word_boundary(text, span.0, span.1) {
            let ghost d0 = diagnostics@;
            let ghost b0 = blocked@;
            let ghost dv = d@;
            diagnostics.push(d);
            blocked.push(span);
            assert(diags_view(diagnostics@) =~= diags_view(d0).push(dv));
            assert(spans_view(blocked@) =~= spans_view(b0).push((span.0 as int, span.1 as int)));
        }
    }
}

/// The style pass over `text`: the table of style variants, then the
/// inferred -का suggestions on neighbouring tokens.
pub open spec fn style_pass(text: Seq<char>, lex: Lexicon, st: PassState) -> PassState {
    ko_ka_pass(text, analyzed_tokens_of(text, lex), style_table_pass(text, style_table(), st))
}

/// Report the Section 4 style suggestions of `text`.
pub fn add_style_variant_diagnostics(
    text: &str,
    tokens: &Vec<AnalyzedToken>,
    lex: &Lexicon,
    blocked: &mut Vec<(usize, usize)>,
    diagnostics: &mut Vec<Diagnostic>,
)
    requires
        analyzed_view(tokens@) == analyzed_tokens_of(text@, *lex),
    ensures
        state_of(final(diagnostics)@, final(blocked)@) == style_pass(text@, *lex, state_of(old(diagnostics)@, old(blocked)@)),
{
    let v = chars_of(text);
    let ghost st0 = state_of(diagnostics@, blocked@);
    let ghost table = style_table();
    let mut k: usize = 0;
    assert(table.take(0) =~= Seq::<(Seq<char>, Seq<char>, Seq<char>)>::empty());
    while k < 22
        invariant
            k <= 22,
            v@ == text@,
            table == style_table(),
            table.len() == 22,
            state_of(diagnostics@, blocked@) == style_table_pass(text@, table.take(k as int), st0),
        decreases 22 - k,
    {
        proof {
            assert(table.take(k + 1).drop_last() =~= table.take(k as int));
            assert(table.take(k + 1).last() == table[k as int]);
        }
        apply_style_entry(text, &v, k, blocked, diagnostics);
        k = k + 1;
    }
    assert(table.take(22) =~= table);
    let ghost st1 = state_of(diagnostics@, blocked@);
    let ghost toks = analyzed_view(tokens@);
    if tokens.len() < 2 {
        return;
    }
    proof {
        lemma_analyzed_well_formed(text@, *lex);
        lemma_analyzed_sorted(text@, *lex);
        assert(toks.take(1).len() == 1);
    }
    let mut i: usize = 0;
    while i + 1 < tokens.len()
        invariant
            i + 1 <= tokens.len(),
            toks == analyzed_view(tokens@),
            toks == analyzed_tokens_of(text@, *lex),
            forall|x: int| 0 <= x < toks.len() ==> 0 <= (#[trigger] toks[x]).start <= toks[x].end <= byte_len(text@),
            forall|x: int, y: int| 0 <= x < y < toks.len() ==> (#[trigger] toks[x]).end <= (#[trigger] toks[y]).start,
            state_of(diagnostics@, blocked@) == ko_ka_pass(text@, toks.take(i + 1), st1),
        decreases tokens.len() - i,
    {
        let l = &tokens[i];
        let r = &tokens[i + 1];
        proof {
            let t = toks.take(i + 2);
            assert(t.drop_last() =~= toks.take(i + 1));
            assert(t[t.len() - 2] == l@);
            assert(t.last() == r@);
            assert(toks[i as int].start <= toks[i as int].end);
            assert(toks[i as int].end <= toks[i + 1].start);
            assert(toks[i + 1].start <= toks[i + 1].end);
        }
        apply_ko_ka(text, l, r, blocked, diagnostics);
        i = i + 1;
    }
    assert(toks.take(i + 1) =~= toks);
}


// ----- what the style pass promises -----

/// `st2` extends `st` by suggestions only: the findings and blocked spans of
/// `st` stay in place, and each finding added is a variant, never an error.
pub open spec fn suggestion_extension(st: PassState, st2: PassState) -> bool {
    &&& st.diags.len() <= st2.diags.len()
    &&& st2.diags.take(st.diags.len() as int) == st.diags
    &&& st.blocked.len() <= st2.blocked.len()
    &&& st2.blocked.take(st.blocked.len() as int) == st.blocked
    &&& forall|i: int| st.diags.len() <= i < st2.diags.len() ==> (#[trigger] st2.diags[i]).kind == DiagnosticKind::Variant
}

proof fn lemma_suggestion_refl(st: PassState)
    ensures
        suggestion_extension(st, st),
{
    assert(st.diags.take(st.diags.len() as int) =~= st.diags);
    assert(st.blocked.take(st.blocked.len() as int) =~= st.blocked);
}

proof fn lemma_suggestion_trans(a: PassState, b: PassState, c: PassState)
    requires
        suggestion_extension(a, b),
        suggestion_extension(b, c),
    ensures
        suggestion_extension(a, c),
{
    assert(c.diags.take(a.diags.len() as int) =~= c.diags.take(b.diags.len() as int).take(a.diags.len() as int));
    assert(c.blocked.take(a.blocked.len() as int) =~= c.blocked.take(b.blocked.len() as int).take(a.blocked.len() as int));
    assert forall|i: int| a.diags.len() <= i < c.diags.len() implies (#[trigger] c.diags[i]).kind == DiagnosticKind::Variant by {
        if i < b.diags.len() {
            assert(c.diags.take(b.diags.len() as int)[i] == c.diags[i]);
        }
    }
}

proof fn lemma_suggestion_push(st: PassState, d: DiagnosticView)
    requires
        d.kind == DiagnosticKind::Variant,
    ensures
        suggestion_extension(st, PassState { diags: st.diags.push(d), blocked: st.blocked.push(d.span) }),
{
    let st2 = PassState { diags: st.diags.push(d), blocked: st.blocked.push(d.span) };
    assert(st2.diags.take(st.diags.len() as int) =~= st.diags);
    assert(st2.blocked.take(st.blocked.len() as int) =~= st.blocked);
}

proof fn lemma_style_occurrences_suggest(text: Seq<char>, e: (Seq<char>, Seq<char>, Seq<char>), st: PassState, ms: Seq<int>)
    ensures
        suggestion_extension(st, style_occurrences(text, e, st, ms)),
    decreases ms.len(),
{
    lemma_suggestion_refl(st);
    if ms.len() > 0 {
        let prev = style_occurrences(text, e, st, ms.drop_last());
        lemma_style_occurrences_suggest(text, e, st, ms.drop_last());
        let b = byte_len(text.take(ms.last())) as int;
        lemma_suggestion_refl(prev);
        lemma_suggestion_push(prev, style_finding(e, (b, b + byte_len(e.0))));
        lemma_suggestion_trans(st, prev, style_occurrences(text, e, st, ms));
    }
}

proof fn lemma_style_table_suggests(text: Seq<char>, es: Seq<(Seq<char>, Seq<char>, Seq<char>)>, st: PassState)
    ensures
        suggestion_extension(st, style_table_pass(text, es, st)),
    decreases es.len(),
{
    lemma_suggestion_refl(st);
    if es.len() > 0 {
        let prev = style_table_pass(text, es.drop_last(), st);
        lemma_style_table_suggests(text, es.drop_last(), st);
        lemma_style_occurrences_suggest(text, es.last(), prev, match_positions(text, es.last().0, 0));
        lemma_suggestion_trans(st, prev, style_table_pass(text, es, st));
    }
}

proof fn lemma_ko_ka_suggests(text: Seq<char>, toks: Seq<AnalyzedTokenView>, st: PassState)
    ensures
        suggestion_extension(st, ko_ka_pass(text, toks, st)),
    decreases toks.len(),
{
    lemma_suggestion_refl(st);
    if toks.len() >= 2 {
        let prev = ko_ka_pass(text, toks.drop_last(), st);
        lemma_ko_ka_suggests(text, toks.drop_last(), st);
        lemma_suggestion_refl(prev);
        if let Some(d) = ko_ka_finding(text, toks[toks.len() - 2], toks.last()) {
            lemma_suggestion_push(prev, d);
        }
        lemma_suggestion_trans(st, prev, ko_ka_pass(text, toks, st));
    }
}

/// The style pass only suggests: every finding and blocked span from before
/// stays in place, and every finding it adds is a variant, never an error.
pub proof fn lemma_style_pass_only_suggests(text: Seq<char>, lex: Lexicon, st: PassState)
    ensures
        suggestion_extension(st, style_pass(text, lex, st)),
{
    let mid = style_table_pass(text, style_table(), st);
    lemma_style_table_suggests(text, style_table(), st);
    lemma_ko_ka_suggests(text, analyzed_tokens_of(text, lex), mid);
    lemma_suggestion_trans(st, mid, style_pass(text, lex, st));
}

} // verus!
