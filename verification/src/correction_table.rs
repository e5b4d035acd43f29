//! The Academy's table of known incorrect word forms and their corrections.
use vstd::prelude::*;

use crate::rule::{Rule, RuleView};
use crate::text::str_eq;

verus! {

broadcast use vstd::string::group_string_axioms;

/// A correction entry from the Academy standard.
#[derive(Debug, Clone, Copy)]
pub struct CorrectionEntry {
    /// The correct form (alternatives separated by `/`).
    pub correct: &'static str,
    /// The cited rule.
    pub rule: Rule,
    /// Explanation of the correction.
    pub description: &'static str,
}

/// The content of one table row: incorrect form, correct form, rule, explanation.
pub ghost struct CorrectionRow {
    pub incorrect: Seq<char>,
    pub correct: Seq<char>,
    pub rule: RuleView,
    pub description: Seq<char>,
}

/// The content of a table row as stored.
pub open spec fn row_view(r: (&'static str, CorrectionEntry)) -> CorrectionRow {
    CorrectionRow {
        incorrect: r.0@,
        correct: r.1.correct@,
        rule: r.1.rule@,
        description: r.1.description@,
    }
}

/// A row of the table by its literal content.
pub open spec fn row(incorrect: &str, correct: &str, rule: Rule, description: &str) -> CorrectionRow {
    CorrectionRow { incorrect: incorrect@, correct: correct@, rule: rule@, description: description@ }
}

/// Rows 1–26 of the correction table.
pub open spec fn correction_rows_1() -> Seq<CorrectionRow> {
    seq![
        row("अत्याधिक", "अत्यधिक", Rule::ShuddhaAshuddha("Section 4"), "स्वर सन्धि: अति + अधिक = अत्यधिक (अत्याधिक होइन)"),
        row("उपरोक्त", "उपर्युक्त", Rule::ShuddhaAshuddha("Section 4"), "मानक रूप: उपरोक्त होइन, उपर्युक्त"),
        row("राजनैतिक", "राजनीतिक", Rule::ShuddhaAshuddha("Section 4"), "राजनीति + क = राजनीतिक (राजनैतिक होइन)"),
        row("उल्लेखित", "उल्लिखित", Rule::ShuddhaAshuddha("Section 4"), "उत् + लिखित = उल्लिखित (उल्लेखित होइन)"),
        row("बागमती", "बाग्मती", Rule::ShuddhaAshuddha("Section 4"), "व्यक्तिवाचक नाम संस्कृत वाग्मतीबाट: संयुक्ताक्षर ग्म अनिवार्य"),
        row("पुनरावलोकन", "पुनरवलोकन", Rule::ShuddhaAshuddha("Section 4"), "पुनर् + अवलोकन = पुनरवलोकन (पुनरावलोकन होइन)"),
        row("व्यवहारिक", "व्यावहारिक", Rule::VarnaVinyasNiyam("3(क)-इक-प्रत्यय"), "इक प्रत्ययमा आदिवृद्धि: व्यवहार + इक = व्यावहारिक"),
        row("धैर्यता", "धीरता", Rule::ShuddhaAshuddha("Section 4"), "-ता अनावश्यक: धीर+ता=धीरता, वा आधाररूप धैर्य"),
        row("प्रसाशन", "प्रशासन", Rule::ShuddhaAshuddha("Section 4, Section 3(ग)"), "प्र + शासन = प्रशासन (श हुन्छ, स होइन; स्वरक्रम सही)"),
        row("संसद", "संसद्", Rule::VarnaVinyasNiyam("3(ङ)"), "हलन्त अनिवार्य: संस्कृत मूलको अन्त्य द् मा हुन्छ (संसद्)"),
        row("परिषद", "परिषद्", Rule::VarnaVinyasNiyam("3(ङ)"), "हलन्त अनिवार्य: संस्कृत मूलको अन्त्य द् मा हुन्छ (परिषद्)"),
        row("संघीय", "सङ्घीय", Rule::VarnaVinyasNiyam("3(ख)-पञ्चम"), "घ अघि पञ्चम वर्ण ङ अनिवार्य (शिरबिन्दु ं होइन)"),
        row("पुनर्स्थापना", "पुनःस्थापना", Rule::ShuddhaAshuddha("Section 4"), "विसर्ग कायम: पुनः + स्थापना (पुनर् होइन)"),
        row("पुनर्संरचना", "पुनःसंरचना", Rule::ShuddhaAshuddha("Section 4"), "विसर्ग कायम: पुनः + संरचना (पुनर् होइन)"),
        row("महत्व", "महत्त्व", Rule::ShuddhaAshuddha("Section 4"), "दोहोरो त अनिवार्य: महत् + त्व = महत्त्व"),
        row("पश्चाताप", "पश्चात्ताप", Rule::ShuddhaAshuddha("Section 4"), "दोहोरो त अनिवार्य: पश्चात् + ताप = पश्चात्ताप"),
        row("मुद्धा", "मुद्दा", Rule::ShuddhaAshuddha("Section 4"), "गलत द्वित्व: द्द (द्ध होइन)"),
        row("श्रृङ्गार", "शृङ्गार", Rule::ShuddhaAshuddha("Section 4"), "शृ होइन श्रृ: श + ृ = शृ (रको संलग्नता हुँदैन)"),
        row("श्रृङ्खला", "शृङ्खला", Rule::ShuddhaAshuddha("Section 4"), "शृ होइन श्रृ: श + ृ = शृ (रको संलग्नता हुँदैन)"),
        row("हरु", "हरू", Rule::VarnaVinyasNiyam("3(ई)"), "बहुवचन प्रत्ययमा दीर्घ ऊ हुन्छ: हरू (हरु होइन)"),
        row("रुप", "रूप", Rule::ShuddhaAshuddha("Section 4"), "तत्सम रूपमा दीर्घ ऊ हुन्छ"),
        row("सौन्दर्यता", "सुन्दरता", Rule::ShuddhaAshuddha("Section 4"), "-ता अनावश्यक: सुन्दरता (सुन्दर+ता) वा सौन्दर्य प्रयोग गर्नुपर्छ"),
        row("गुणस्तरीयता", "गुणस्तरीय", Rule::ShuddhaAshuddha("Section 4"), "-ता अनावश्यक: गुणस्तरीय आफैं विशेषण हो"),
        row("औचित्यता", "औचित्य", Rule::ShuddhaAshuddha("Section 4"), "-ता अनावश्यक: औचित्य आफैं भाववाचक रूप हो"),
        row("आतिथ्यता", "आतिथ्य", Rule::ShuddhaAshuddha("Section 4"), "-ता अनावश्यक: आतिथ्य आफैं भाववाचक रूप हो"),
        row("यथार्थता", "यथार्थ", Rule::ShuddhaAshuddha("Section 4"), "-ता अनावश्यक: यथार्थ आफैं नामपद/विशेषणका रूपमा चल्छ"),
    ]
}

/// Rows 27–52 of the correction table.
pub open spec fn correction_rows_2() -> Seq<CorrectionRow> {
    seq![
        row("कार्यबाही", "कारबाही", Rule::ShuddhaAshuddha("Section 4"), "कार+बाही (र्य बिना): कारबाही"),
        row("वृक्षारोपण", "वृक्षरोपण", Rule::ShuddhaAshuddha("Section 4"), "वृक्ष+रोपण = वृक्षरोपण (अतिरिक्त आ हुँदैन)"),
        row("गत्यावरोध", "गत्यवरोध", Rule::ShuddhaAshuddha("Section 4"), "गति+अवरोध = गत्यवरोध (यण् सन्धि, अतिरिक्त आ हुँदैन)"),
        row("सामाग्री", "सामग्री", Rule::ShuddhaAshuddha("Section 4"), "अतिरिक्त आ हुँदैन: सामग्री"),
        row("भएकोमा", "भएकामा", Rule::ShuddhaAshuddha("Section 4"), "नामयोगी रूप: भएका+मा = भएकामा"),
        row("एनकानुन", "ऐनकानुन", Rule::ShuddhaAshuddha("Section 4"), "आदिवृद्धि: ऐन (इ→ऐ) + कानुन = ऐनकानुन"),
        row("सामाजीकरण", "सामाजिकीकरण", Rule::ShuddhaAshuddha("Section 4"), "सामाजिक+ईकरण = सामाजिकीकरण"),
        row("औद्योगीकरण", "औद्योगिकीकरण", Rule::ShuddhaAshuddha("Section 4"), "औद्योगिक+ईकरण = औद्योगिकीकरण"),
        row("असक्षम", "अक्षम", Rule::ShuddhaAshuddha("Section 4"), "अ+क्षम = अक्षम (अतिरिक्त स हुँदैन)"),
        row("सपाङ्ग", "साङ्ग", Rule::ShuddhaAshuddha("Section 4, Section 4(ख)"), "स+अङ्ग = साङ्ग (दीर्घ सन्धि)"),
        row("ब्यहोरा", "बेहोरा", Rule::ShuddhaAshuddha("Section 4"), "मानक रूप: बेहोरा"),
        row("एकिन", "यकिन", Rule::ShuddhaAshuddha("Section 4"), "मानक रूप: यकिन (य होइन ए)"),
        row("सुरुवात", "सुरुआत", Rule::ShuddhaAshuddha("Section 4"), "मानक रूप: सुरुआत (सुरुवात होइन)"),
        row("रजिष्टर", "रजिस्टर", Rule::ShuddhaAshuddha("Section 4"), "आगन्तुक: स होइन ष 'register' का लागि"),
        row("इन्ष्टिच्युट", "इन्स्टिच्युट", Rule::ShuddhaAshuddha("Section 4"), "आगन्तुक: स होइन ष 'institute' का लागि"),
        row("फाउण्डेसन", "फाउन्डेसन", Rule::ShuddhaAshuddha("Section 4"), "आगन्तुक शब्दमा न प्रयोग हुन्छ, ण होइन: फाउन्डेसन"),
        row("झण्डा", "झन्डा", Rule::ShuddhaAshuddha("Section 4"), "ड अघि न प्रयोग हुन्छ, ण होइन: झन्डा"),
        row("इण्डिया", "इन्डिया", Rule::ShuddhaAshuddha("Section 4"), "आगन्तुक शब्दमा न प्रयोग हुन्छ, ण होइन: इन्डिया"),
        row("इंग्ल्याण्ड", "इङ्ग्ल्यान्ड", Rule::ShuddhaAshuddha("Section 4"), "ग अघि पञ्चम वर्ण ङ र न प्रयोग हुन्छ, ण होइन: इङ्ग्ल्यान्ड"),
        row("शहीद", "सहिद", Rule::ShuddhaAshuddha("Section 4"), "रूपान्तरित आगन्तुक शब्दमा स प्रयोग हुन्छ (श होइन), ह्रस्व इ हुन्छ (दीर्घ ई होइन)"),
        row("मीठो", "मिठो", Rule::VarnaVinyasNiyam("3(क)-12"), "तद्भव एकार्थक शब्दमा ह्रस्व हुन्छ: मिष्ट → मिठो"),
        row("पीरो", "पिरो", Rule::VarnaVinyasNiyam("3(क)-12"), "तद्भव एकार्थक शब्दमा ह्रस्व हुन्छ"),
        row("तिथीमीति", "तिथिमिति", Rule::VarnaVinyasNiyam("3(क)-12"), "तद्भव समासिक शब्दमा दुवै पदमा ह्रस्व हुन्छ"),
        row("मीलेको", "मिलेको", Rule::VarnaVinyasNiyam("3(क)-12"), "तद्भव क्रियामूलमा ह्रस्व हुन्छ: मिल्नु → मिलेको"),
        row("दैनीकी", "दैनिकी", Rule::VarnaVinyasNiyam("3(क)-12"), "तद्भव व्युत्पत्तिमा शब्दमध्यको स्वर ह्रस्व हुन्छ"),
        row("भाई", "भाइ", Rule::VarnaVinyasNiyam("3(क)-12"), "नातागोता तद्भव शब्दमा ह्रस्व इ हुन्छ: भ्रातृ → भाइ"),
    ]
}

/// Rows 53–78 of the correction table.
pub open spec fn correction_rows_3() -> Seq<CorrectionRow> {
    seq![
        row("मूखमा", "मुखमा", Rule::VarnaVinyasNiyam("3(क)"), "तत्सम शब्द मुख मा मूल ह्रस्व उ नै रहन्छ (दीर्घ ऊ होइन)"),
        row("पूतली", "पुतली", Rule::VarnaVinyasNiyam("3(क)-12, 3(ई)"), "तद्भव शब्दमा ह्रस्व उ हुन्छ"),
        row("अनुभूती", "अनुभूति", Rule::VarnaVinyasNiyam("3(क)"), "तत्सम शब्द अनुभूति को अन्त्य ह्रस्व इमा हुन्छ"),
        row("हामि", "हामी", Rule::VarnaVinyasNiyam("3(ई)-ऊ-7"), "सर्वनाममा दीर्घ हुन्छ: हामी (हामि होइन)"),
        row("दीदी", "दिदी", Rule::VarnaVinyasNiyam("3(इ)-ऊ-3"), "नातागोता तद्भव शब्दमा सुरुको स्वर ह्रस्व र अन्त्य दीर्घ हुन्छ"),
        row("बहीनी", "बहिनी", Rule::VarnaVinyasNiyam("3(इ)-ऊ-3"), "नातागोता तद्भव शब्दमा शब्दमध्यको स्वर ह्रस्व र अन्त्य दीर्घ हुन्छ"),
        row("भाउजु", "भाउजू", Rule::VarnaVinyasNiyam("3(ई)"), "स्त्रीलिङ्गी नातागोता शब्दमा दीर्घ हुन्छ: भाउजू (भाउजु होइन)"),
        row("फुपु", "फुपू", Rule::VarnaVinyasNiyam("3(ई)"), "स्त्रीलिङ्गी नातागोता शब्दमा दीर्घ हुन्छ: फुपू (फुपु होइन)"),
        row("मीतिनिले", "मितिनीले", Rule::VarnaVinyasNiyam("3(इ), 3(ई)"), "नातागोता तद्भव शब्दमा सुरुमा ह्रस्व इ र अन्त्यमा दीर्घ ई हुन्छ"),
        row("खुर्सानि", "खुर्सानी", Rule::VarnaVinyasNiyam("3(ई)"), "स्त्रीलिङ्गी नामपदको अन्त्यमा दीर्घ ई हुन्छ"),
        row("सम्धिनि", "सम्धिनी", Rule::VarnaVinyasNiyam("3(ई)"), "स्त्रीलिङ्गी नामपदको अन्त्यमा दीर्घ ई हुन्छ"),
        row("पहाडि", "पहाडी", Rule::VarnaVinyasNiyam("3(ई)"), "विशेषण तथा स्थानबोधक शब्दको अन्त्यमा दीर्घ ई हुन्छ"),
        row("भनि", "भनी", Rule::VarnaVinyasNiyam("3(ई)"), "असमापक क्रियामा अन्त्यमा दीर्घ ई हुन्छ"),
        row("स्वीकार्नु", "स्विकार्नु", Rule::VarnaVinyasNiyam("3(क)-प्रत्यय-नु"), "प्रत्यय -नु ले ह्रस्व: स्वीकार + नु = स्विकार्नु"),
        row("पूर्वेली", "पुर्वेली", Rule::VarnaVinyasNiyam("3(क)-प्रत्यय-एली"), "प्रत्यय -एली ले ह्रस्व: पूर्व + एली = पुर्वेली"),
        row("पुर्वी", "पूर्वी", Rule::VarnaVinyasNiyam("3(ई)-प्रत्यय-ई"), "प्रत्यय -ई ले दीर्घ: पूर्व + ई = पूर्वी"),
        row("पुर्वीय", "पूर्वीय", Rule::VarnaVinyasNiyam("3(ई)-प्रत्यय-ईय"), "प्रत्यय -ईय ले दीर्घ: पूर्व + ईय = पूर्वीय"),
        row("सिँह", "सिंह", Rule::VarnaVinyasNiyam("3(ख)"), "तत्सम शब्दमा शिरबिन्दु (ं) प्रयोग हुन्छ, चन्द्रबिन्दु (ँ) होइन"),
        row("सँवाद", "संवाद", Rule::VarnaVinyasNiyam("3(ख)"), "तत्सम शब्दमा शिरबिन्दु (ं) प्रयोग हुन्छ, चन्द्रबिन्दु (ँ) होइन"),
        row("जान्छौ", "जान्छौँ", Rule::VarnaVinyasNiyam("3(ख)"), "तद्भव क्रियापदमा अनुनासिकका लागि चन्द्रबिन्दु हुन्छ"),
        row("आउछ", "आउँछ", Rule::VarnaVinyasNiyam("3(ख)"), "तद्भव क्रियापदमा अनुनासिकका लागि चन्द्रबिन्दु हुन्छ"),
        row("वगैचामा", "बगैँचामा", Rule::VarnaVinyasNiyam("3(ख)"), "ब (व होइन) + चन्द्रबिन्दु अनिवार्य: बगैँचा"),
        row("बगैचा", "बगैँचा", Rule::VarnaVinyasNiyam("3(ख)"), "बगैँचा शब्दमा चन्द्रबिन्दु अनिवार्य हुन्छ"),
        row("सासन", "शासन", Rule::VarnaVinyasNiyam("3(ग)"), "तत्सम शब्दमा श (स होइन): शासन"),
        row("सेष", "शेष", Rule::VarnaVinyasNiyam("3(ग)"), "तत्सम शब्दमा श (स होइन): शेष"),
        row("एशिया", "एसिया", Rule::VarnaVinyasNiyam("3(ग)"), "आगन्तुक शब्दमा स (श होइन): एसिया"),
    ]
}

/// Rows 79–101 of the correction table.
pub open spec fn correction_rows_4() -> Seq<CorrectionRow> {
    seq![
        row("विवेकशिल", "विवेकशील", Rule::VarnaVinyasNiyam("3(ग), 3(ई)"), "तत्सम प्रत्यय -शील मा दीर्घ ई हुन्छ"),
        row("रिषि", "ऋषि", Rule::VarnaVinyasNiyam("3(ग)-ऋ"), "तत्सम शब्दमा ऋ (रि होइन): ऋषि"),
        row("रितु", "ऋतु", Rule::VarnaVinyasNiyam("3(ग)-ऋ"), "तत्सम शब्दमा ऋ (रि होइन): ऋतु"),
        row("क्रिति", "कृति", Rule::VarnaVinyasNiyam("3(ग)-कृ"), "तत्सम शब्दमा कृ (क्रि होइन): कृति"),
        row("रिषिमुनि", "ऋषिमुनि", Rule::VarnaVinyasNiyam("3(ग)-ऋ"), "तत्सम समास: ऋषि + मुनि (ऋ, रि होइन)"),
        row("अर्थात", "अर्थात्", Rule::VarnaVinyasNiyam("3(ङ)"), "अव्यय अर्थात् मा हलन्त अनिवार्य हुन्छ"),
        row("बुद्धिमान", "बुद्धिमान्", Rule::VarnaVinyasNiyam("3(ङ)"), "-मान् प्रत्ययमा हलन्त अनिवार्य हुन्छ (बुद्धिमान्)"),
        row("भगवान", "भगवान्", Rule::VarnaVinyasNiyam("3(ङ)"), "-वान् प्रत्ययमा हलन्त अनिवार्य हुन्छ (भगवान्)"),
        row("महान", "महान्", Rule::VarnaVinyasNiyam("3(ङ)"), "हलन्त अनिवार्य: तत्सम मूलको अन्त्य न् मा हुन्छ (महान्)"),
        row("विद्वान", "विद्वान्", Rule::VarnaVinyasNiyam("3(ङ)"), "-वान् प्रत्ययमा हलन्त अनिवार्य हुन्छ (विद्वान्)"),
        row("श्रीमान", "श्रीमान्", Rule::VarnaVinyasNiyam("3(ङ)"), "-मान् प्रत्ययमा हलन्त अनिवार्य हुन्छ (श्रीमान्)"),
        row("बिद्या", "विद्या", Rule::VarnaVinyasNiyam("3(ग)-बव"), "तत्सम शब्दमा व (ब होइन): विद्या"),
        row("बिद्वान", "विद्वान्", Rule::VarnaVinyasNiyam("3(ग)-बव"), "तत्सम शब्दमा व (ब होइन) र हलन्त: विद्वान्"),
        row("बिदेश", "विदेश", Rule::VarnaVinyasNiyam("3(ग)-बव"), "तत्सम शब्दमा व (ब होइन): विदेश"),
        row("बिकास", "विकास", Rule::VarnaVinyasNiyam("3(ग)-बव"), "तत्सम शब्दमा व (ब होइन): विकास"),
        row("बिज्ञान", "विज्ञान", Rule::VarnaVinyasNiyam("3(ग)-बव"), "तत्सम शब्दमा व (ब होइन): विज्ञान"),
        row("एथार्थ", "यथार्थ", Rule::VarnaVinyasNiyam("3(छ)"), "तत्सम शब्दमा य (ए होइन): यथार्थ"),
        row("यकता", "एकता", Rule::VarnaVinyasNiyam("3(छ)"), "तत्सम शब्दमा ए (य होइन): एकता"),
        row("लछ्य", "लक्ष्य", Rule::VarnaVinyasNiyam("3(छ)-क्ष"), "तत्सम शब्दमा क्ष (छ होइन): लक्ष्य"),
        row("इक्षा", "इच्छा", Rule::VarnaVinyasNiyam("3(छ)-क्ष"), "तत्सम शब्द इच्छा मा च्छ हुन्छ (क्ष होइन)"),
        row("छेत्र", "क्षेत्र", Rule::VarnaVinyasNiyam("3(छ)-क्ष"), "तत्सम शब्दमा क्षे (छे होइन): क्षेत्र"),
        row("भनीन", "भनिन्", Rule::VarnaVinyasNiyam("3(क), 3(ङ)"), "क्रियापदको रूप भनिन् मा ह्रस्व + हलन्त हुन्छ"),
        row("सन्सारमा", "संसारमा", Rule::VarnaVinyasNiyam("3(ख)"), "संसार मा शिरबिन्दु रूप हुन्छ (हलन्त-न सन्सार होइन)"),
    ]
}

/// The whole correction table, in the Academy's order.
pub open spec fn correction_rows() -> Seq<CorrectionRow> {
    correction_rows_1() + correction_rows_2() + correction_rows_3() + correction_rows_4()
}

fn push_correction_rows_1(t: &mut Vec<(&'static str, CorrectionEntry)>)
    ensures
        final(t)@.map_values(|r: (&'static str, CorrectionEntry)| row_view(r)) == old(t)@.map_values(|r: (&'static str, CorrectionEntry)| row_view(r)) + correction_rows_1(),
{
    let ghost start = t@;
    t.push(("अत्याधिक", CorrectionEntry { correct: "अत्यधिक", rule: Rule::ShuddhaAshuddha("Section 4"), description: "स्वर सन्धि: अति + अधिक = अत्यधिक (अत्याधिक होइन)" }));
    t.push(("उपरोक्त", CorrectionEntry { correct: "उपर्युक्त", rule: Rule::ShuddhaAshuddha("Section 4"), description: "मानक रूप: उपरोक्त होइन, उपर्युक्त" }));
    t.push(("राजनैतिक", CorrectionEntry { correct: "राजनीतिक", rule: Rule::ShuddhaAshuddha("Section 4"), description: "राजनीति + क = राजनीतिक (राजनैतिक होइन)" }));
    t.push(("उल्लेखित", CorrectionEntry { correct: "उल्लिखित", rule: Rule::ShuddhaAshuddha("Section 4"), description: "उत् + लिखित = उल्लिखित (उल्लेखित होइन)" }));
    t.push(("बागमती", CorrectionEntry { correct: "बाग्मती", rule: Rule::ShuddhaAshuddha("Section 4"), description: "व्यक्तिवाचक नाम संस्कृत वाग्मतीबाट: संयुक्ताक्षर ग्म अनिवार्य" }));
    t.push(("पुनरावलोकन", CorrectionEntry { correct: "पुनरवलोकन", rule: Rule::ShuddhaAshuddha("Section 4"), description: "पुनर् + अवलोकन = पुनरवलोकन (पुनरावलोकन होइन)" }));
    t.push(("व्यवहारिक", CorrectionEntry { correct: "व्यावहारिक", rule: Rule::VarnaVinyasNiyam("3(क)-इक-प्रत्यय"), description: "इक प्रत्ययमा आदिवृद्धि: व्यवहार + इक = व्यावहारिक" }));
    t.push(("धैर्यता", CorrectionEntry { correct: "धीरता", rule: Rule::ShuddhaAshuddha("Section 4"), description: "-ता अनावश्यक: धीर+ता=धीरता, वा आधाररूप धैर्य" }));
    t.push(("प्रसाशन", CorrectionEntry { correct: "प्रशासन", rule: Rule::ShuddhaAshuddha("Section 4, Section 3(ग)"), description: "प्र + शासन = प्रशासन (श हुन्छ, स होइन; स्वरक्रम सही)" }));
    t.push(("संसद", CorrectionEntry { correct: "संसद्", rule: Rule::VarnaVinyasNiyam("3(ङ)"), description: "हलन्त अनिवार्य: संस्कृत मूलको अन्त्य द् मा हुन्छ (संसद्)" }));
    t.push(("परिषद", CorrectionEntry { correct: "परिषद्", rule: Rule::VarnaVinyasNiyam("3(ङ)"), description: "हलन्त अनिवार्य: संस्कृत मूलको अन्त्य द् मा हुन्छ (परिषद्)" }));
    t.push(("संघीय", CorrectionEntry { correct: "सङ्घीय", rule: Rule::VarnaVinyasNiyam("3(ख)-पञ्चम"), description: "घ अघि पञ्चम वर्ण ङ अनिवार्य (शिरबिन्दु ं होइन)" }));
    t.push(("पुनर्स्थापना", CorrectionEntry { correct: "पुनःस्थापना", rule: Rule::ShuddhaAshuddha("Section 4"), description: "विसर्ग कायम: पुनः + स्थापना (पुनर् होइन)" }));
    t.push(("पुनर्संरचना", CorrectionEntry { correct: "पुनःसंरचना", rule: Rule::ShuddhaAshuddha("Section 4"), description: "विसर्ग कायम: पुनः + संरचना (पुनर् होइन)" }));
    t.push(("महत्व", CorrectionEntry { correct: "महत्त्व", rule: Rule::ShuddhaAshuddha("Section 4"), description: "दोहोरो त अनिवार्य: महत् + त्व = महत्त्व" }));
    t.push(("पश्चाताप", CorrectionEntry { correct: "पश्चात्ताप", rule: Rule::ShuddhaAshuddha("Section 4"), description: "दोहोरो त अनिवार्य: पश्चात् + ताप = पश्चात्ताप" }));
    t.push(("मुद्धा", CorrectionEntry { correct: "मुद्दा", rule: Rule::ShuddhaAshuddha("Section 4"), description: "गलत द्वित्व: द्द (द्ध होइन)" }));
    t.push(("श्रृङ्गार", CorrectionEntry { correct: "शृङ्गार", rule: Rule::ShuddhaAshuddha("Section 4"), description: "शृ होइन श्रृ: श + ृ = शृ (रको संलग्नता हुँदैन)" }));
    t.push(("श्रृङ्खला", CorrectionEntry { correct: "शृङ्खला", rule: Rule::ShuddhaAshuddha("Section 4"), description: "शृ होइन श्रृ: श + ृ = शृ (रको संलग्नता हुँदैन)" }));
    t.push(("हरु", CorrectionEntry { correct: "हरू", rule: Rule::VarnaVinyasNiyam("3(ई)"), description: "बहुवचन प्रत्ययमा दीर्घ ऊ हुन्छ: हरू (हरु होइन)" }));
    t.push(("रुप", CorrectionEntry { correct: "रूप", rule: Rule::ShuddhaAshuddha("Section 4"), description: "तत्सम रूपमा दीर्घ ऊ हुन्छ" }));
    t.push(("सौन्दर्यता", CorrectionEntry { correct: "सुन्दरता", rule: Rule::ShuddhaAshuddha("Section 4"), description: "-ता अनावश्यक: सुन्दरता (सुन्दर+ता) वा सौन्दर्य प्रयोग गर्नुपर्छ" }));
    t.push(("गुणस्तरीयता", CorrectionEntry { correct: "गुणस्तरीय", rule: Rule::ShuddhaAshuddha("Section 4"), description: "-ता अनावश्यक: गुणस्तरीय आफैं विशेषण हो" }));
    t.push(("औचित्यता", CorrectionEntry { correct: "औचित्य", rule: Rule::ShuddhaAshuddha("Section 4"), description: "-ता अनावश्यक: औचित्य आफैं भाववाचक रूप हो" }));
    t.push(("आतिथ्यता", CorrectionEntry { correct: "आतिथ्य", rule: Rule::ShuddhaAshuddha("Section 4"), description: "-ता अनावश्यक: आतिथ्य आफैं भाववाचक रूप हो" }));
    t.push(("यथार्थता", CorrectionEntry { correct: "यथार्थ", rule: Rule::ShuddhaAshuddha("Section 4"), description: "-ता अनावश्यक: यथार्थ आफैं नामपद/विशेषणका रूपमा चल्छ" }));
    assert(t@.map_values(|r: (&'static str, CorrectionEntry)| row_view(r)) =~= start.map_values(|r: (&'static str, CorrectionEntry)| row_view(r)) + correction_rows_1());
}

fn push_correction_rows_2(t: &mut Vec<(&'static str, CorrectionEntry)>)
    ensures
        final(t)@.map_values(|r: (&'static str, CorrectionEntry)| row_view(r)) == old(t)@.map_values(|r: (&'static str, CorrectionEntry)| row_view(r)) + correction_rows_2(),
{
    let ghost start = t@;
    t.push(("कार्यबाही", CorrectionEntry { correct: "कारबाही", rule: Rule::ShuddhaAshuddha("Section 4"), description: "कार+बाही (र्य बिना): कारबाही" }));
    t.push(("वृक्षारोपण", CorrectionEntry { correct: "वृक्षरोपण", rule: Rule::ShuddhaAshuddha("Section 4"), description: "वृक्ष+रोपण = वृक्षरोपण (अतिरिक्त आ हुँदैन)" }));
    t.push(("गत्यावरोध", CorrectionEntry { correct: "गत्यवरोध", rule: Rule::ShuddhaAshuddha("Section 4"), description: "गति+अवरोध = गत्यवरोध (यण् सन्धि, अतिरिक्त आ हुँदैन)" }));
    t.push(("सामाग्री", CorrectionEntry { correct: "सामग्री", rule: Rule::ShuddhaAshuddha("Section 4"), description: "अतिरिक्त आ हुँदैन: सामग्री" }));
    t.push(("भएकोमा", CorrectionEntry { correct: "भएकामा", rule: Rule::ShuddhaAshuddha("Section 4"), description: "नामयोगी रूप: भएका+मा = भएकामा" }));
    t.push(("एनकानुन", CorrectionEntry { correct: "ऐनकानुन", rule: Rule::ShuddhaAshuddha("Section 4"), description: "आदिवृद्धि: ऐन (इ→ऐ) + कानुन = ऐनकानुन" }));
    t.push(("सामाजीकरण", CorrectionEntry { correct: "सामाजिकीकरण", rule: Rule::ShuddhaAshuddha("Section 4"), description: "सामाजिक+ईकरण = सामाजिकीकरण" }));
    t.push(("औद्योगीकरण", CorrectionEntry { correct: "औद्योगिकीकरण", rule: Rule::ShuddhaAshuddha("Section 4"), description: "औद्योगिक+ईकरण = औद्योगिकीकरण" }));
    t.push(("असक्षम", CorrectionEntry { correct: "अक्षम", rule: Rule::ShuddhaAshuddha("Section 4"), description: "अ+क्षम = अक्षम (अतिरिक्त स हुँदैन)" }));
    t.push(("सपाङ्ग", CorrectionEntry { correct: "साङ्ग", rule: Rule::ShuddhaAshuddha("Section 4, Section 4(ख)"), description: "स+अङ्ग = साङ्ग (दीर्घ सन्धि)" }));
    t.push(("ब्यहोरा", CorrectionEntry { correct: "बेहोरा", rule: Rule::ShuddhaAshuddha("Section 4"), description: "मानक रूप: बेहोरा" }));
    t.push(("एकिन", CorrectionEntry { correct: "यकिन", rule: Rule::ShuddhaAshuddha("Section 4"), description: "मानक रूप: यकिन (य होइन ए)" }));
    t.push(("सुरुवात", CorrectionEntry { correct: "सुरुआत", rule: Rule::ShuddhaAshuddha("Section 4"), description: "मानक रूप: सुरुआत (सुरुवात होइन)" }));
    t.push(("रजिष्टर", CorrectionEntry { correct: "रजिस्टर", rule: Rule::ShuddhaAshuddha("Section 4"), description: "आगन्तुक: स होइन ष 'register' का लागि" }));
    t.push(("इन्ष्टिच्युट", CorrectionEntry { correct: "इन्स्टिच्युट", rule: Rule::ShuddhaAshuddha("Section 4"), description: "आगन्तुक: स होइन ष 'institute' का लागि" }));
    t.push(("फाउण्डेसन", CorrectionEntry { correct: "फाउन्डेसन", rule: Rule::ShuddhaAshuddha("Section 4"), description: "आगन्तुक शब्दमा न प्रयोग हुन्छ, ण होइन: फाउन्डेसन" }));
    t.push(("झण्डा", CorrectionEntry { correct: "झन्डा", rule: Rule::ShuddhaAshuddha("Section 4"), description: "ड अघि न प्रयोग हुन्छ, ण होइन: झन्डा" }));
    t.push(("इण्डिया", CorrectionEntry { correct: "इन्डिया", rule: Rule::ShuddhaAshuddha("Section 4"), description: "आगन्तुक शब्दमा न प्रयोग हुन्छ, ण होइन: इन्डिया" }));
    t.push(("इंग्ल्याण्ड", CorrectionEntry { correct: "इङ्ग्ल्यान्ड", rule: Rule::ShuddhaAshuddha("Section 4"), description: "ग अघि पञ्चम वर्ण ङ र न प्रयोग हुन्छ, ण होइन: इङ्ग्ल्यान्ड" }));
    t.push(("शहीद", CorrectionEntry { correct: "सहिद", rule: Rule::ShuddhaAshuddha("Section 4"), description: "रूपान्तरित आगन्तुक शब्दमा स प्रयोग हुन्छ (श होइन), ह्रस्व इ हुन्छ (दीर्घ ई होइन)" }));
    t.push(("मीठो", CorrectionEntry { correct: "मिठो", rule: Rule::VarnaVinyasNiyam("3(क)-12"), description: "तद्भव एकार्थक शब्दमा ह्रस्व हुन्छ: मिष्ट → मिठो" }));
    t.push(("पीरो", CorrectionEntry { correct: "पिरो", rule: Rule::VarnaVinyasNiyam("3(क)-12"), description: "तद्भव एकार्थक शब्दमा ह्रस्व हुन्छ" }));
    t.push(("तिथीमीति", CorrectionEntry { correct: "तिथिमिति", rule: Rule::VarnaVinyasNiyam("3(क)-12"), description: "तद्भव समासिक शब्दमा दुवै पदमा ह्रस्व हुन्छ" }));
    t.push(("मीलेको", CorrectionEntry { correct: "मिलेको", rule: Rule::VarnaVinyasNiyam("3(क)-12"), description: "तद्भव क्रियामूलमा ह्रस्व हुन्छ: मिल्नु → मिलेको" }));
    t.push(("दैनीकी", CorrectionEntry { correct: "दैनिकी", rule: Rule::VarnaVinyasNiyam("3(क)-12"), description: "तद्भव व्युत्पत्तिमा शब्दमध्यको स्वर ह्रस्व हुन्छ" }));
    t.push(("भाई", CorrectionEntry { correct: "भाइ", rule: Rule::VarnaVinyasNiyam("3(क)-12"), description: "नातागोता तद्भव शब्दमा ह्रस्व इ हुन्छ: भ्रातृ → भाइ" }));
    assert(t@.map_values(|r: (&'static str, CorrectionEntry)| row_view(r)) =~= start.map_values(|r: (&'static str, CorrectionEntry)| row_view(r)) + correction_rows_2());
}

fn push_correction_rows_3(t: &mut Vec<(&'static str, CorrectionEntry)>)
    ensures
        final(t)@.map_values(|r: (&'static str, CorrectionEntry)| row_view(r)) == old(t)@.map_values(|r: (&'static str, CorrectionEntry)| row_view(r)) + correction_rows_3(),
{
    let ghost start = t@;
    t.push(("मूखमा", CorrectionEntry { correct: "मुखमा", rule: Rule::VarnaVinyasNiyam("3(क)"), description: "तत्सम शब्द मुख मा मूल ह्रस्व उ नै रहन्छ (दीर्घ ऊ होइन)" }));
    t.push(("पूतली", CorrectionEntry { correct: "पुतली", rule: Rule::VarnaVinyasNiyam("3(क)-12, 3(ई)"), description: "तद्भव शब्दमा ह्रस्व उ हुन्छ" }));
    t.push(("अनुभूती", CorrectionEntry { correct: "अनुभूति", rule: Rule::VarnaVinyasNiyam("3(क)"), description: "तत्सम शब्द अनुभूति को अन्त्य ह्रस्व इमा हुन्छ" }));
    t.push(("हामि", CorrectionEntry { correct: "हामी", rule: Rule::VarnaVinyasNiyam("3(ई)-ऊ-7"), description: "सर्वनाममा दीर्घ हुन्छ: हामी (हामि होइन)" }));
    t.push(("दीदी", CorrectionEntry { correct: "दिदी", rule: Rule::VarnaVinyasNiyam("3(इ)-ऊ-3"), description: "नातागोता तद्भव शब्दमा सुरुको स्वर ह्रस्व र अन्त्य दीर्घ हुन्छ" }));
    t.push(("बहीनी", CorrectionEntry { correct: "बहिनी", rule: Rule::VarnaVinyasNiyam("3(इ)-ऊ-3"), description: "नातागोता तद्भव शब्दमा शब्दमध्यको स्वर ह्रस्व र अन्त्य दीर्घ हुन्छ" }));
    t.push(("भाउजु", CorrectionEntry { correct: "भाउजू", rule: Rule::VarnaVinyasNiyam("3(ई)"), description: "स्त्रीलिङ्गी नातागोता शब्दमा दीर्घ हुन्छ: भाउजू (भाउजु होइन)" }));
    t.push(("फुपु", CorrectionEntry { correct: "फुपू", rule: Rule::VarnaVinyasNiyam("3(ई)"), description: "स्त्रीलिङ्गी नातागोता शब्दमा दीर्घ हुन्छ: फुपू (फुपु होइन)" }));
    t.push(("मीतिनिले", CorrectionEntry { correct: "मितिनीले", rule: Rule::VarnaVinyasNiyam("3(इ), 3(ई)"), description: "नातागोता तद्भव शब्दमा सुरुमा ह्रस्व इ र अन्त्यमा दीर्घ ई हुन्छ" }));
    t.push(("खुर्सानि", CorrectionEntry { correct: "खुर्सानी", rule: Rule::VarnaVinyasNiyam("3(ई)"), description: "स्त्रीलिङ्गी नामपदको अन्त्यमा दीर्घ ई हुन्छ" }));
    t.push(("सम्धिनि", CorrectionEntry { correct: "सम्धिनी", rule: Rule::VarnaVinyasNiyam("3(ई)"), description: "स्त्रीलिङ्गी नामपदको अन्त्यमा दीर्घ ई हुन्छ" }));
    t.push(("पहाडि", CorrectionEntry { correct: "पहाडी", rule: Rule::VarnaVinyasNiyam("3(ई)"), description: "विशेषण तथा स्थानबोधक शब्दको अन्त्यमा दीर्घ ई हुन्छ" }));
    t.push(("भनि", CorrectionEntry { correct: "भनी", rule: Rule::VarnaVinyasNiyam("3(ई)"), description: "असमापक क्रियामा अन्त्यमा दीर्घ ई हुन्छ" }));
    t.push(("स्वीकार्नु", CorrectionEntry { correct: "स्विकार्नु", rule: Rule::VarnaVinyasNiyam("3(क)-प्रत्यय-नु"), description: "प्रत्यय -नु ले ह्रस्व: स्वीकार + नु = स्विकार्नु" }));
    t.push(("पूर्वेली", CorrectionEntry { correct: "पुर्वेली", rule: Rule::VarnaVinyasNiyam("3(क)-प्रत्यय-एली"), description: "प्रत्यय -एली ले ह्रस्व: पूर्व + एली = पुर्वेली" }));
    t.push(("पुर्वी", CorrectionEntry { correct: "पूर्वी", rule: Rule::VarnaVinyasNiyam("3(ई)-प्रत्यय-ई"), description: "प्रत्यय -ई ले दीर्घ: पूर्व + ई = पूर्वी" }));
    t.push(("पुर्वीय", CorrectionEntry { correct: "पूर्वीय", rule: Rule::VarnaVinyasNiyam("3(ई)-प्रत्यय-ईय"), description: "प्रत्यय -ईय ले दीर्घ: पूर्व + ईय = पूर्वीय" }));
    t.push(("सिँह", CorrectionEntry { correct: "सिंह", rule: Rule::VarnaVinyasNiyam("3(ख)"), description: "तत्सम शब्दमा शिरबिन्दु (ं) प्रयोग हुन्छ, चन्द्रबिन्दु (ँ) होइन" }));
    t.push(("सँवाद", CorrectionEntry { correct: "संवाद", rule: Rule::VarnaVinyasNiyam("3(ख)"), description: "तत्सम शब्दमा शिरबिन्दु (ं) प्रयोग हुन्छ, चन्द्रबिन्दु (ँ) होइन" }));
    t.push(("जान्छौ", CorrectionEntry { correct: "जान्छौँ", rule: Rule::VarnaVinyasNiyam("3(ख)"), description: "तद्भव क्रियापदमा अनुनासिकका लागि चन्द्रबिन्दु हुन्छ" }));
    t.push(("आउछ", CorrectionEntry { correct: "आउँछ", rule: Rule::VarnaVinyasNiyam("3(ख)"), description: "तद्भव क्रियापदमा अनुनासिकका लागि चन्द्रबिन्दु हुन्छ" }));
    t.push(("वगैचामा", CorrectionEntry { correct: "बगैँचामा", rule: Rule::VarnaVinyasNiyam("3(ख)"), description: "ब (व होइन) + चन्द्रबिन्दु अनिवार्य: बगैँचा" }));
    t.push(("बगैचा", CorrectionEntry { correct: "बगैँचा", rule: Rule::VarnaVinyasNiyam("3(ख)"), description: "बगैँचा शब्दमा चन्द्रबिन्दु अनिवार्य हुन्छ" }));
    t.push(("सासन", CorrectionEntry { correct: "शासन", rule: Rule::VarnaVinyasNiyam("3(ग)"), description: "तत्सम शब्दमा श (स होइन): शासन" }));
    t.push(("सेष", CorrectionEntry { correct: "शेष", rule: Rule::VarnaVinyasNiyam("3(ग)"), description: "तत्सम शब्दमा श (स होइन): शेष" }));
    t.push(("एशिया", CorrectionEntry { correct: "एसिया", rule: Rule::VarnaVinyasNiyam("3(ग)"), description: "आगन्तुक शब्दमा स (श होइन): एसिया" }));
    assert(t@.map_values(|r: (&'static str, CorrectionEntry)| row_view(r)) =~= start.map_values(|r: (&'static str, CorrectionEntry)| row_view(r)) + correction_rows_3());
}

fn push_correction_rows_4(t: &mut Vec<(&'static str, CorrectionEntry)>)
    ensures
        final(t)@.map_values(|r: (&'static str, CorrectionEntry)| row_view(r)) == old(t)@.map_values(|r: (&'static str, CorrectionEntry)| row_view(r)) + correction_rows_4(),
{
    let ghost start = t@;
    t.push(("विवेकशिल", CorrectionEntry { correct: "विवेकशील", rule: Rule::VarnaVinyasNiyam("3(ग), 3(ई)"), description: "तत्सम प्रत्यय -शील मा दीर्घ ई हुन्छ" }));
    t.push(("रिषि", CorrectionEntry { correct: "ऋषि", rule: Rule::VarnaVinyasNiyam("3(ग)-ऋ"), description: "तत्सम शब्दमा ऋ (रि होइन): ऋषि" }));
    t.push(("रितु", CorrectionEntry { correct: "ऋतु", rule: Rule::VarnaVinyasNiyam("3(ग)-ऋ"), description: "तत्सम शब्दमा ऋ (रि होइन): ऋतु" }));
    t.push(("क्रिति", CorrectionEntry { correct: "कृति", rule: Rule::VarnaVinyasNiyam("3(ग)-कृ"), description: "तत्सम शब्दमा कृ (क्रि होइन): कृति" }));
    t.push(("रिषिमुनि", CorrectionEntry { correct: "ऋषिमुनि", rule: Rule::VarnaVinyasNiyam("3(ग)-ऋ"), description: "तत्सम समास: ऋषि + मुनि (ऋ, रि होइन)" }));
    t.push(("अर्थात", CorrectionEntry { correct: "अर्थात्", rule: Rule::VarnaVinyasNiyam("3(ङ)"), description: "अव्यय अर्थात् मा हलन्त अनिवार्य हुन्छ" }));
    t.push(("बुद्धिमान", CorrectionEntry { correct: "बुद्धिमान्", rule: Rule::VarnaVinyasNiyam("3(ङ)"), description: "-मान् प्रत्ययमा हलन्त अनिवार्य हुन्छ (बुद्धिमान्)" }));
    t.push(("भगवान", CorrectionEntry { correct: "भगवान्", rule: Rule::VarnaVinyasNiyam("3(ङ)"), description: "-वान् प्रत्ययमा हलन्त अनिवार्य हुन्छ (भगवान्)" }));
    t.push(("महान", CorrectionEntry { correct: "महान्", rule: Rule::VarnaVinyasNiyam("3(ङ)"), description: "हलन्त अनिवार्य: तत्सम मूलको अन्त्य न् मा हुन्छ (महान्)" }));
    t.push(("विद्वान", CorrectionEntry { correct: "विद्वान्", rule: Rule::VarnaVinyasNiyam("3(ङ)"), description: "-वान् प्रत्ययमा हलन्त अनिवार्य हुन्छ (विद्वान्)" }));
    t.push(("श्रीमान", CorrectionEntry { correct: "श्रीमान्", rule: Rule::VarnaVinyasNiyam("3(ङ)"), description: "-मान् प्रत्ययमा हलन्त अनिवार्य हुन्छ (श्रीमान्)" }));
    t.push(("बिद्या", CorrectionEntry { correct: "विद्या", rule: Rule::VarnaVinyasNiyam("3(ग)-बव"), description: "तत्सम शब्दमा व (ब होइन): विद्या" }));
    t.push(("बिद्वान", CorrectionEntry { correct: "विद्वान्", rule: Rule::VarnaVinyasNiyam("3(ग)-बव"), description: "तत्सम शब्दमा व (ब होइन) र हलन्त: विद्वान्" }));
    t.push(("बिदेश", CorrectionEntry { correct: "विदेश", rule: Rule::VarnaVinyasNiyam("3(ग)-बव"), description: "तत्सम शब्दमा व (ब होइन): विदेश" }));
    t.push(("बिकास", CorrectionEntry { correct: "विकास", rule: Rule::VarnaVinyasNiyam("3(ग)-बव"), description: "तत्सम शब्दमा व (ब होइन): विकास" }));
    t.push(("बिज्ञान", CorrectionEntry { correct: "विज्ञान", rule: Rule::VarnaVinyasNiyam("3(ग)-बव"), description: "तत्सम शब्दमा व (ब होइन): विज्ञान" }));
    t.push(("एथार्थ", CorrectionEntry { correct: "यथार्थ", rule: Rule::VarnaVinyasNiyam("3(छ)"), description: "तत्सम शब्दमा य (ए होइन): यथार्थ" }));
    t.push(("यकता", CorrectionEntry { correct: "एकता", rule: Rule::VarnaVinyasNiyam("3(छ)"), description: "तत्सम शब्दमा ए (य होइन): एकता" }));
    t.push(("लछ्य", CorrectionEntry { correct: "लक्ष्य", rule: Rule::VarnaVinyasNiyam("3(छ)-क्ष"), description: "तत्सम शब्दमा क्ष (छ होइन): लक्ष्य" }));
    t.push(("इक्षा", CorrectionEntry { correct: "इच्छा", rule: Rule::VarnaVinyasNiyam("3(छ)-क्ष"), description: "तत्सम शब्द इच्छा मा च्छ हुन्छ (क्ष होइन)" }));
    t.push(("छेत्र", CorrectionEntry { correct: "क्षेत्र", rule: Rule::VarnaVinyasNiyam("3(छ)-क्ष"), description: "तत्सम शब्दमा क्षे (छे होइन): क्षेत्र" }));
    t.push(("भनीन", CorrectionEntry { correct: "भनिन्", rule: Rule::VarnaVinyasNiyam("3(क), 3(ङ)"), description: "क्रियापदको रूप भनिन् मा ह्रस्व + हलन्त हुन्छ" }));
    t.push(("सन्सारमा", CorrectionEntry { correct: "संसारमा", rule: Rule::VarnaVinyasNiyam("3(ख)"), description: "संसार मा शिरबिन्दु रूप हुन्छ (हलन्त-न सन्सार होइन)" }));
    assert(t@.map_values(|r: (&'static str, CorrectionEntry)| row_view(r)) =~= start.map_values(|r: (&'static str, CorrectionEntry)| row_view(r)) + correction_rows_4());
}

/// The correction table, in the Academy's order.
pub fn correction_table() -> (t: Vec<(&'static str, CorrectionEntry)>)
    ensures
        t@.map_values(|r: (&'static str, CorrectionEntry)| row_view(r)) == correction_rows(),
{
    let mut t: Vec<(&'static str, CorrectionEntry)> = Vec::new();
    assert(t@.map_values(|r: (&'static str, CorrectionEntry)| row_view(r)) =~= Seq::<CorrectionRow>::empty());
    push_correction_rows_1(&mut t);
    push_correction_rows_2(&mut t);
    push_correction_rows_3(&mut t);
    push_correction_rows_4(&mut t);
    assert(t@.map_values(|r: (&'static str, CorrectionEntry)| row_view(r)) =~= correction_rows());
    t
}

/// Index of the first row at or after `i` whose incorrect form is `w`, or `-1`.
pub open spec fn first_row_from(rows: Seq<CorrectionRow>, w: Seq<char>, i: int) -> int
    decreases rows.len() - i,
{
    if i < 0 || i >= rows.len() {
        -1
    } else if rows[i].incorrect == w {
        i
    } else {
        first_row_from(rows, w, i + 1)
    }
}

/// The table row for the incorrect form `w`, if the table lists one.
pub open spec fn table_row(w: Seq<char>) -> Option<CorrectionRow> {
    let i = first_row_from(correction_rows(), w, 0);
    if i < 0 {
        None
    } else {
        Some(correction_rows()[i])
    }
}

proof fn lemma_rows_1_name_words()
    ensures
        forall|i: int| 0 <= i < correction_rows_1().len() ==> (#[trigger] correction_rows_1()[i]).incorrect.len() > 0,
{
    reveal_strlit("अत्याधिक");
    reveal_strlit("उपरोक्त");
    reveal_strlit("राजनैतिक");
    reveal_strlit("उल्लेखित");
    reveal_strlit("बागमती");
    reveal_strlit("पुनरावलोकन");
    reveal_strlit("व्यवहारिक");
    reveal_strlit("धैर्यता");
    reveal_strlit("प्रसाशन");
    reveal_strlit("संसद");
    reveal_strlit("परिषद");
    reveal_strlit("संघीय");
    reveal_strlit("पुनर्स्थापना");
    reveal_strlit("पुनर्संरचना");
    reveal_strlit("महत्व");
    reveal_strlit("पश्चाताप");
    reveal_strlit("मुद्धा");
    reveal_strlit("श्रृङ्गार");
    reveal_strlit("श्रृङ्खला");
    reveal_strlit("हरु");
    reveal_strlit("रुप");
    reveal_strlit("सौन्दर्यता");
    reveal_strlit("गुणस्तरीयता");
    reveal_strlit("औचित्यता");
    reveal_strlit("आतिथ्यता");
    reveal_strlit("यथार्थता");
    let r = correction_rows_1();
    assert forall|i: int| 0 <= i < r.len() implies (#[trigger] r[i]).incorrect.len() > 0 by {
        if i == 0 {
            assert(r[0].incorrect == "अत्याधिक"@);
        } else if i == 1 {
            assert(r[1].incorrect == "उपरोक्त"@);
        } else if i == 2 {
            assert(r[2].incorrect == "राजनैतिक"@);
        } else if i == 3 {
            assert(r[3].incorrect == "उल्लेखित"@);
        } else if i == 4 {
            assert(r[4].incorrect == "बागमती"@);
        } else if i == 5 {
            assert(r[5].incorrect == "पुनरावलोकन"@);
        } else if i == 6 {
            assert(r[6].incorrect == "व्यवहारिक"@);
        } else if i == 7 {
            assert(r[7].incorrect == "धैर्यता"@);
        } else if i == 8 {
            assert(r[8].incorrect == "प्रसाशन"@);
        } else if i == 9 {
            assert(r[9].incorrect == "संसद"@);
        } else if i == 10 {
            assert(r[10].incorrect == "परिषद"@);
        } else if i == 11 {
            assert(r[11].incorrect == "संघीय"@);
        } else if i == 12 {
            assert(r[12].incorrect == "पुनर्स्थापना"@);
        } else if i == 13 {
            assert(r[13].incorrect == "पुनर्संरचना"@);
        } else if i == 14 {
            assert(r[14].incorrect == "महत्व"@);
        } else if i == 15 {
            assert(r[15].incorrect == "पश्चाताप"@);
        } else if i == 16 {
            assert(r[16].incorrect == "मुद्धा"@);
        } else if i == 17 {
            assert(r[17].incorrect == "श्रृङ्गार"@);
        } else if i == 18 {
            assert(r[18].incorrect == "श्रृङ्खला"@);
        } else if i == 19 {
            assert(r[19].incorrect == "हरु"@);
        } else if i == 20 {
            assert(r[20].incorrect == "रुप"@);
        } else if i == 21 {
            assert(r[21].incorrect == "सौन्दर्यता"@);
        } else if i == 22 {
            assert(r[22].incorrect == "गुणस्तरीयता"@);
        } else if i == 23 {
            assert(r[23].incorrect == "औचित्यता"@);
        } else if i == 24 {
            assert(r[24].incorrect == "आतिथ्यता"@);
        } else if i == 25 {
            assert(r[25].incorrect == "यथार्थता"@);
        }
    }
}

proof fn lemma_rows_2_name_words()
    ensures
        forall|i: int| 0 <= i < correction_rows_2().len() ==> (#[trigger] correction_rows_2()[i]).incorrect.len() > 0,
{
    reveal_strlit("कार्यबाही");
    reveal_strlit("वृक्षारोपण");
    reveal_strlit("गत्यावरोध");
    reveal_strlit("सामाग्री");
    reveal_strlit("भएकोमा");
    reveal_strlit("एनकानुन");
    reveal_strlit("सामाजीकरण");
    reveal_strlit("औद्योगीकरण");
    reveal_strlit("असक्षम");
    reveal_strlit("सपाङ्ग");
    reveal_strlit("ब्यहोरा");
    reveal_strlit("एकिन");
    reveal_strlit("सुरुवात");
    reveal_strlit("रजिष्टर");
    reveal_strlit("इन्ष्टिच्युट");
    reveal_strlit("फाउण्डेसन");
    reveal_strlit("झण्डा");
    reveal_strlit("इण्डिया");
    reveal_strlit("इंग्ल्याण्ड");
    reveal_strlit("शहीद");
    reveal_strlit("मीठो");
    reveal_strlit("पीरो");
    reveal_strlit("तिथीमीति");
    reveal_strlit("मीलेको");
    reveal_strlit("दैनीकी");
    reveal_strlit("भाई");
    let r = correction_rows_2();
    assert forall|i: int| 0 <= i < r.len() implies (#[trigger] r[i]).incorrect.len() > 0 by {
        if i == 0 {
            assert(r[0].incorrect == "कार्यबाही"@);
        } else if i == 1 {
            assert(r[1].incorrect == "वृक्षारोपण"@);
        } else if i == 2 {
            assert(r[2].incorrect == "गत्यावरोध"@);
        } else if i == 3 {
            assert(r[3].incorrect == "सामाग्री"@);
        } else if i == 4 {
            assert(r[4].incorrect == "भएकोमा"@);
        } else if i == 5 {
            assert(r[5].incorrect == "एनकानुन"@);
        } else if i == 6 {
            assert(r[6].incorrect == "सामाजीकरण"@);
        } else if i == 7 {
            assert(r[7].incorrect == "औद्योगीकरण"@);
        } else if i == 8 {
            assert(r[8].incorrect == "असक्षम"@);
        } else if i == 9 {
            assert(r[9].incorrect == "सपाङ्ग"@);
        } else if i == 10 {
            assert(r[10].incorrect == "ब्यहोरा"@);
        } else if i == 11 {
            assert(r[11].incorrect == "एकिन"@);
        } else if i == 12 {
            assert(r[12].incorrect == "सुरुवात"@);
        } else if i == 13 {
            assert(r[13].incorrect == "रजिष्टर"@);
        } else if i == 14 {
            assert(r[14].incorrect == "इन्ष्टिच्युट"@);
        } else if i == 15 {
            assert(r[15].incorrect == "फाउण्डेसन"@);
        } else if i == 16 {
            assert(r[16].incorrect == "झण्डा"@);
        } else if i == 17 {
            assert(r[17].incorrect == "इण्डिया"@);
        } else if i == 18 {
            assert(r[18].incorrect == "इंग्ल्याण्ड"@);
        } else if i == 19 {
            assert(r[19].incorrect == "शहीद"@);
        } else if i == 20 {
            assert(r[20].incorrect == "मीठो"@);
        } else if i == 21 {
            assert(r[21].incorrect == "पीरो"@);
        } else if i == 22 {
            assert(r[22].incorrect == "तिथीमीति"@);
        } else if i == 23 {
            assert(r[23].incorrect == "मीलेको"@);
        } else if i == 24 {
            assert(r[24].incorrect == "दैनीकी"@);
        } else if i == 25 {
            assert(r[25].incorrect == "भाई"@);
        }
    }
}

proof fn lemma_rows_3_name_words()
    ensures
        forall|i: int| 0 <= i < correction_rows_3().len() ==> (#[trigger] correction_rows_3()[i]).incorrect.len() > 0,
{
    reveal_strlit("मूखमा");
    reveal_strlit("पूतली");
    reveal_strlit("अनुभूती");
    reveal_strlit("हामि");
    reveal_strlit("दीदी");
    reveal_strlit("बहीनी");
    reveal_strlit("भाउजु");
    reveal_strlit("फुपु");
    reveal_strlit("मीतिनिले");
    reveal_strlit("खुर्सानि");
    reveal_strlit("सम्धिनि");
    reveal_strlit("पहाडि");
    reveal_strlit("भनि");
    reveal_strlit("स्वीकार्नु");
    reveal_strlit("पूर्वेली");
    reveal_strlit("पुर्वी");
    reveal_strlit("पुर्वीय");
    reveal_strlit("सिँह");
    reveal_strlit("सँवाद");
    reveal_strlit("जान्छौ");
    reveal_strlit("आउछ");
    reveal_strlit("वगैचामा");
    reveal_strlit("बगैचा");
    reveal_strlit("सासन");
    reveal_strlit("सेष");
    reveal_strlit("एशिया");
    let r = correction_rows_3();
    assert forall|i: int| 0 <= i < r.len() implies (#[trigger] r[i]).incorrect.len() > 0 by {
        if i == 0 {
            assert(r[0].incorrect == "मूखमा"@);
        } else if i == 1 {
            assert(r[1].incorrect == "पूतली"@);
        } else if i == 2 {
            assert(r[2].incorrect == "अनुभूती"@);
        } else if i == 3 {
            assert(r[3].incorrect == "हामि"@);
        } else if i == 4 {
            assert(r[4].incorrect == "दीदी"@);
        } else if i == 5 {
            assert(r[5].incorrect == "बहीनी"@);
        } else if i == 6 {
            assert(r[6].incorrect == "भाउजु"@);
        } else if i == 7 {
            assert(r[7].incorrect == "फुपु"@);
        } else if i == 8 {
            assert(r[8].incorrect == "मीतिनिले"@);
        } else if i == 9 {
            assert(r[9].incorrect == "खुर्सानि"@);
        } else if i == 10 {
            assert(r[10].incorrect == "सम्धिनि"@);
        } else if i == 11 {
            assert(r[11].incorrect == "पहाडि"@);
        } else if i == 12 {
            assert(r[12].incorrect == "भनि"@);
        } else if i == 13 {
            assert(r[13].incorrect == "स्वीकार्नु"@);
        } else if i == 14 {
            assert(r[14].incorrect == "पूर्वेली"@);
        } else if i == 15 {
            assert(r[15].incorrect == "पुर्वी"@);
        } else if i == 16 {
            assert(r[16].incorrect == "पुर्वीय"@);
        } else if i == 17 {
            assert(r[17].incorrect == "सिँह"@);
        } else if i == 18 {
            assert(r[18].incorrect == "सँवाद"@);
        } else if i == 19 {
            assert(r[19].incorrect == "जान्छौ"@);
        } else if i == 20 {
            assert(r[20].incorrect == "आउछ"@);
        } else if i == 21 {
            assert(r[21].incorrect == "वगैचामा"@);
        } else if i == 22 {
            assert(r[22].incorrect == "बगैचा"@);
        } else if i == 23 {
            assert(r[23].incorrect == "सासन"@);
        } else if i == 24 {
            assert(r[24].incorrect == "सेष"@);
        } else if i == 25 {
            assert(r[25].incorrect == "एशिया"@);
        }
    }
}

proof fn lemma_rows_4_name_words()
    ensures
        forall|i: int| 0 <= i < correction_rows_4().len() ==> (#[trigger] correction_rows_4()[i]).incorrect.len() > 0,
{
    reveal_strlit("विवेकशिल");
    reveal_strlit("रिषि");
    reveal_strlit("रितु");
    reveal_strlit("क्रिति");
    reveal_strlit("रिषिमुनि");
    reveal_strlit("अर्थात");
    reveal_strlit("बुद्धिमान");
    reveal_strlit("भगवान");
    reveal_strlit("महान");
    reveal_strlit("विद्वान");
    reveal_strlit("श्रीमान");
    reveal_strlit("बिद्या");
    reveal_strlit("बिद्वान");
    reveal_strlit("बिदेश");
    reveal_strlit("बिकास");
    reveal_strlit("बिज्ञान");
    reveal_strlit("एथार्थ");
    reveal_strlit("यकता");
    reveal_strlit("लछ्य");
    reveal_strlit("इक्षा");
    reveal_strlit("छेत्र");
    reveal_strlit("भनीन");
    reveal_strlit("सन्सारमा");
    let r = correction_rows_4();
    assert forall|i: int| 0 <= i < r.len() implies (#[trigger] r[i]).incorrect.len() > 0 by {
        if i == 0 {
            assert(r[0].incorrect == "विवेकशिल"@);
        } else if i == 1 {
            assert(r[1].incorrect == "रिषि"@);
        } else if i == 2 {
            assert(r[2].incorrect == "रितु"@);
        } else if i == 3 {
            assert(r[3].incorrect == "क्रिति"@);
        } else if i == 4 {
            assert(r[4].incorrect == "रिषिमुनि"@);
        } else if i == 5 {
            assert(r[5].incorrect == "अर्थात"@);
        } else if i == 6 {
            assert(r[6].incorrect == "बुद्धिमान"@);
        } else if i == 7 {
            assert(r[7].incorrect == "भगवान"@);
        } else if i == 8 {
            assert(r[8].incorrect == "महान"@);
        } else if i == 9 {
            assert(r[9].incorrect == "विद्वान"@);
        } else if i == 10 {
            assert(r[10].incorrect == "श्रीमान"@);
        } else if i == 11 {
            assert(r[11].incorrect == "बिद्या"@);
        } else if i == 12 {
            assert(r[12].incorrect == "बिद्वान"@);
        } else if i == 13 {
            assert(r[13].incorrect == "बिदेश"@);
        } else if i == 14 {
            assert(r[14].incorrect == "बिकास"@);
        } else if i == 15 {
            assert(r[15].incorrect == "बिज्ञान"@);
        } else if i == 16 {
            assert(r[16].incorrect == "एथार्थ"@);
        } else if i == 17 {
            assert(r[17].incorrect == "यकता"@);
        } else if i == 18 {
            assert(r[18].incorrect == "लछ्य"@);
        } else if i == 19 {
            assert(r[19].incorrect == "इक्षा"@);
        } else if i == 20 {
            assert(r[20].incorrect == "छेत्र"@);
        } else if i == 21 {
            assert(r[21].incorrect == "भनीन"@);
        } else if i == 22 {
            assert(r[22].incorrect == "सन्सारमा"@);
        }
    }
}

/// The table lists no empty word form: every row names a word.
pub proof fn lemma_table_rows_name_words()
    ensures
        forall|i: int| 0 <= i < correction_rows().len() ==> (#[trigger] correction_rows()[i]).incorrect.len() > 0,
        table_row(seq![]) is None,
{
    lemma_rows_1_name_words();
    lemma_rows_2_name_words();
    lemma_rows_3_name_words();
    lemma_rows_4_name_words();
    let a = correction_rows_1();
    let b = correction_rows_2();
    let c = correction_rows_3();
    let d = correction_rows_4();
    let all = correction_rows();
    assert forall|i: int| 0 <= i < all.len() implies (#[trigger] all[i]).incorrect.len() > 0 by {
        if i < a.len() {
            assert(all[i] == a[i]);
        } else if i < a.len() + b.len() {
            assert(all[i] == b[i - a.len()]);
        } else if i < a.len() + b.len() + c.len() {
            assert(all[i] == c[i - a.len() - b.len()]);
        } else {
            assert(all[i] == d[i - a.len() - b.len() - c.len()]);
        }
    }
    lemma_no_row_for_empty(all, 0);
}

proof fn lemma_no_row_for_empty(rows: Seq<CorrectionRow>, i: int)
    requires
        forall|j: int| 0 <= j < rows.len() ==> (#[trigger] rows[j]).incorrect.len() > 0,
        0 <= i,
    ensures
        first_row_from(rows, seq![], i) == -1,
    decreases rows.len() - i,
{
    if i < rows.len() {
        assert(rows[i].incorrect != Seq::<char>::empty());
        lemma_no_row_for_empty(rows, i + 1);
    }
}

/// Look up a word in the correction table.
pub fn lookup(word: &str) -> (r: Option<CorrectionEntry>)
    ensures
        match r {
            Some(e) => table_row(word@) matches Some(row) && row.correct == e.correct@
                && row.rule == e.rule@ && row.description == e.description@,
            None => table_row(word@) is None,
        },
{
    let t = correction_table();
    let ghost rows = t@.map_values(|r: (&'static str, CorrectionEntry)| row_view(r));
    let mut i: usize = 0;
    while i < t.len()
        invariant
            i <= t@.len(),
            rows == correction_rows(),
            rows == t@.map_values(|r: (&'static str, CorrectionEntry)| row_view(r)),
            first_row_from(rows, word@, 0) == first_row_from(rows, word@, i as int),
        decreases t.len() - i,
    {
        assert(rows[i as int] == row_view(t@[i as int]));
        if str_eq(t[i].0, word) {
            return Some(t[i].1);
        }
        i = i + 1;
    }
    None
}

/// Check if a word exists in the correction table (as an incorrect form).
pub fn contains(word: &str) -> (r: bool)
    ensures
        r == table_row(word@) is Some,
{
    lookup(word).is_some()
}

} // verus!
