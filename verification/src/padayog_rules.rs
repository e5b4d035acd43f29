//! The Academy's (घ) rules on joining and separating words (पदयोग/पदवियोग):
//! each sub-rule with the concrete phrase rewrites it licenses.
use vstd::prelude::*;

verus! {

/// Concrete rewrite pair with a terse explanation.
#[derive(Debug, Clone, Copy)]
pub struct PhraseRewrite {
    pub incorrect: &'static str,
    pub correct: &'static str,
    pub explanation: &'static str,
}

/// The content of a [`PhraseRewrite`].
pub ghost struct RewriteView {
    pub incorrect: Seq<char>,
    pub correct: Seq<char>,
    pub explanation: Seq<char>,
}

impl View for PhraseRewrite {
    type V = RewriteView;

    open spec fn view(&self) -> RewriteView {
        RewriteView { incorrect: self.incorrect@, correct: self.correct@, explanation: self.explanation@ }
    }
}

/// One Academy `(घ)` subrule bucket.
#[derive(Debug, Clone)]
pub struct PadayogRule {
    /// Stable citation (e.g., `3(घ)-पदयोग-४`).
    pub code: &'static str,
    /// Human readable rule label.
    pub label: &'static str,
    /// Concrete rewrite patterns for this subrule.
    pub rewrites: Vec<PhraseRewrite>,
}

/// The content of a [`PadayogRule`].
pub ghost struct PadayogRuleView {
    pub code: Seq<char>,
    pub label: Seq<char>,
    pub rewrites: Seq<RewriteView>,
}

/// Rewrites by content.
pub open spec fn rewrites_view(v: Seq<PhraseRewrite>) -> Seq<RewriteView> {
    v.map_values(|r: PhraseRewrite| r@)
}

impl View for PadayogRule {
    type V = PadayogRuleView;

    open spec fn view(&self) -> PadayogRuleView {
        PadayogRuleView { code: self.code@, label: self.label@, rewrites: rewrites_view(self.rewrites@) }
    }
}

/// A rewrite by its literal content.
pub open spec fn rw(incorrect: &str, correct: &str, explanation: &str) -> RewriteView {
    RewriteView { incorrect: incorrect@, correct: correct@, explanation: explanation@ }
}

/// Sub-rule 3(घ)-पदयोग-१: उपसर्ग जोडेर लेख्नुपर्छ.
pub open spec fn padayog_rule_0() -> PadayogRuleView {
    PadayogRuleView {
        code: "3(घ)-पदयोग-१"@,
        label: "उपसर्ग जोडेर लेख्नुपर्छ"@,
        rewrites: seq![
        rw("बद नाम", "बदनाम", "उपसर्ग जोडेर लेख्नुपर्छ"),
        rw("बे काम", "बेकाम", "उपसर्ग जोडेर लेख्नुपर्छ"),
        rw("अधि पति", "अधिपति", "उपसर्ग जोडेर लेख्नुपर्छ")
        ],
    }
}

fn make_padayog_rule_0() -> (r: PadayogRule)
    ensures
        r@ == padayog_rule_0(),
{
    let mut v: Vec<PhraseRewrite> = Vec::new();
    v.push(PhraseRewrite { incorrect: "बद नाम", correct: "बदनाम", explanation: "उपसर्ग जोडेर लेख्नुपर्छ" });
    v.push(PhraseRewrite { incorrect: "बे काम", correct: "बेकाम", explanation: "उपसर्ग जोडेर लेख्नुपर्छ" });
    v.push(PhraseRewrite { incorrect: "अधि पति", correct: "अधिपति", explanation: "उपसर्ग जोडेर लेख्नुपर्छ" });
    assert(rewrites_view(v@) =~= padayog_rule_0().rewrites);
    PadayogRule { code: "3(घ)-पदयोग-१", label: "उपसर्ग जोडेर लेख्नुपर्छ", rewrites: v }
}

/// Sub-rule 3(घ)-पदयोग-३: विभक्ति जोडेर लेख्नुपर्छ.
pub open spec fn padayog_rule_1() -> PadayogRuleView {
    PadayogRuleView {
        code: "3(घ)-पदयोग-३"@,
        label: "विभक्ति जोडेर लेख्नुपर्छ"@,
        rewrites: seq![
        rw("राम ले", "रामले", "विभक्ति जोडेर लेख्नुपर्छ"),
        rw("भाइ लाई", "भाइलाई", "विभक्ति जोडेर लेख्नुपर्छ"),
        rw("देश को", "देशको", "विभक्ति जोडेर लेख्नुपर्छ"),
        rw("घर बाट", "घरबाट", "विभक्ति जोडेर लेख्नुपर्छ"),
        rw("म देखि", "मदेखि", "विभक्ति जोडेर लेख्नुपर्छ"),
        rw("देश मा", "देशमा", "विभक्ति जोडेर लेख्नुपर्छ")
        ],
    }
}

fn make_padayog_rule_1() -> (r: PadayogRule)
    ensures
        r@ == padayog_rule_1(),
{
    let mut v: Vec<PhraseRewrite> = Vec::new();
    v.push(PhraseRewrite { incorrect: "राम ले", correct: "रामले", explanation: "विभक्ति जोडेर लेख्नुपर्छ" });
    v.push(PhraseRewrite { incorrect: "भाइ लाई", correct: "भाइलाई", explanation: "विभक्ति जोडेर लेख्नुपर्छ" });
    v.push(PhraseRewrite { incorrect: "देश को", correct: "देशको", explanation: "विभक्ति जोडेर लेख्नुपर्छ" });
    v.push(PhraseRewrite { incorrect: "घर बाट", correct: "घरबाट", explanation: "विभक्ति जोडेर लेख्नुपर्छ" });
    v.push(PhraseRewrite { incorrect: "म देखि", correct: "मदेखि", explanation: "विभक्ति जोडेर लेख्नुपर्छ" });
    v.push(PhraseRewrite { incorrect: "देश मा", correct: "देशमा", explanation: "विभक्ति जोडेर लेख्नुपर्छ" });
    assert(rewrites_view(v@) =~= padayog_rule_1().rewrites);
    PadayogRule { code: "3(घ)-पदयोग-३", label: "विभक्ति जोडेर लेख्नुपर्छ", rewrites: v }
}

/// Sub-rule 3(घ)-पदयोग-४: नामयोगी जोडेर लेख्नुपर्छ.
pub open spec fn padayog_rule_2() -> PadayogRuleView {
    PadayogRuleView {
        code: "3(घ)-पदयोग-४"@,
        label: "नामयोगी जोडेर लेख्नुपर्छ"@,
        rewrites: seq![
        rw("घर तिर", "घरतिर", "नामयोगी जोडेर लेख्नुपर्छ"),
        rw("तिमी भन्दा", "तिमीभन्दा", "नामयोगी जोडेर लेख्नुपर्छ"),
        rw("कोठा भित्र", "कोठाभित्र", "नामयोगी जोडेर लेख्नुपर्छ"),
        rw("बिना काम", "बिनाकाम", "नामयोगी जोडेर लेख्नुपर्छ"),
        rw("म सँग", "मसँग", "नामयोगी जोडेर लेख्नुपर्छ"),
        rw("आज्ञा अनुसार", "आज्ञाअनुसार", "नामयोगी जोडेर लेख्नुपर्छ"),
        rw("हामी बाहेक", "हामीबाहेक", "नामयोगी जोडेर लेख्नुपर्छ"),
        rw("त्यस अन्तर्गत", "त्यसअन्तर्गत", "नामयोगी जोडेर लेख्नुपर्छ"),
        rw("भने बमोजिम", "भनेबमोजिम", "नामयोगी जोडेर लेख्नुपर्छ")
        ],
    }
}

fn make_padayog_rule_2() -> (r: PadayogRule)
    ensures
        r@ == padayog_rule_2(),
{
    let mut v: Vec<PhraseRewrite> = Vec::new();
    v.push(PhraseRewrite { incorrect: "घर तिर", correct: "घरतिर", explanation: "नामयोगी जोडेर लेख्नुपर्छ" });
    v.push(PhraseRewrite { incorrect: "तिमी भन्दा", correct: "तिमीभन्दा", explanation: "नामयोगी जोडेर लेख्नुपर्छ" });
    v.push(PhraseRewrite { incorrect: "कोठा भित्र", correct: "कोठाभित्र", explanation: "नामयोगी जोडेर लेख्नुपर्छ" });
    v.push(PhraseRewrite { incorrect: "बिना काम", correct: "बिनाकाम", explanation: "नामयोगी जोडेर लेख्नुपर्छ" });
    v.push(PhraseRewrite { incorrect: "म सँग", correct: "मसँग", explanation: "नामयोगी जोडेर लेख्नुपर्छ" });
    v.push(PhraseRewrite { incorrect: "आज्ञा अनुसार", correct: "आज्ञाअनुसार", explanation: "नामयोगी जोडेर लेख्नुपर्छ" });
    v.push(PhraseRewrite { incorrect: "हामी बाहेक", correct: "हामीबाहेक", explanation: "नामयोगी जोडेर लेख्नुपर्छ" });
    v.push(PhraseRewrite { incorrect: "त्यस अन्तर्गत", correct: "त्यसअन्तर्गत", explanation: "नामयोगी जोडेर लेख्नुपर्छ" });
    v.push(PhraseRewrite { incorrect: "भने बमोजिम", correct: "भनेबमोजिम", explanation: "नामयोगी जोडेर लेख्नुपर्छ" });
    assert(rewrites_view(v@) =~= padayog_rule_2().rewrites);
    PadayogRule { code: "3(घ)-पदयोग-४", label: "नामयोगी जोडेर लेख्नुपर्छ", rewrites: v }
}

/// Sub-rule 3(घ)-पदयोग-५: समस्त शब्द जोडेर लेख्नुपर्छ.
pub open spec fn padayog_rule_3() -> PadayogRuleView {
    PadayogRuleView {
        code: "3(घ)-पदयोग-५"@,
        label: "समस्त शब्द जोडेर लेख्नुपर्छ"@,
        rewrites: seq![
        rw("गाई गोठ", "गाईगोठ", "समस्त शब्द जोडेर लेख्नुपर्छ"),
        rw("आमा छोरी", "आमाछोरी", "समस्त शब्द जोडेर लेख्नुपर्छ"),
        rw("दाजु भाइ", "दाजुभाइ", "समस्त शब्द जोडेर लेख्नुपर्छ"),
        rw("देश निकाला", "देशनिकाला", "समस्त शब्द जोडेर लेख्नुपर्छ")
        ],
    }
}

fn make_padayog_rule_3() -> (r: PadayogRule)
    ensures
        r@ == padayog_rule_3(),
{
    let mut v: Vec<PhraseRewrite> = Vec::new();
    v.push(PhraseRewrite { incorrect: "गाई गोठ", correct: "गाईगोठ", explanation: "समस्त शब्द जोडेर लेख्नुपर्छ" });
    v.push(PhraseRewrite { incorrect: "आमा छोरी", correct: "आमाछोरी", explanation: "समस्त शब्द जोडेर लेख्नुपर्छ" });
    v.push(PhraseRewrite { incorrect: "दाजु भाइ", correct: "दाजुभाइ", explanation: "समस्त शब्द जोडेर लेख्नुपर्छ" });
    v.push(PhraseRewrite { incorrect: "देश निकाला", correct: "देशनिकाला", explanation: "समस्त शब्द जोडेर लेख्नुपर्छ" });
    assert(rewrites_view(v@) =~= padayog_rule_3().rewrites);
    PadayogRule { code: "3(घ)-पदयोग-५", label: "समस्त शब्द जोडेर लेख्नुपर्छ", rewrites: v }
}

/// Sub-rule 3(घ)-पदयोग-६: निरर्थक द्वित्व जोडेर लेख्नुपर्छ.
pub open spec fn padayog_rule_4() -> PadayogRuleView {
    PadayogRuleView {
        code: "3(घ)-पदयोग-६"@,
        label: "निरर्थक द्वित्व जोडेर लेख्नुपर्छ"@,
        rewrites: seq![
        rw("फटा फट", "फटाफट", "निरर्थक द्वित्व जोडेर लेख्नुपर्छ"),
        rw("सरा सर", "सरासर", "निरर्थक द्वित्व जोडेर लेख्नुपर्छ"),
        rw("हस्याङ फस्याङ", "हस्याङफस्याङ", "निरर्थक द्वित्व जोडेर लेख्नुपर्छ")
        ],
    }
}

fn make_padayog_rule_4() -> (r: PadayogRule)
    ensures
        r@ == padayog_rule_4(),
{
    let mut v: Vec<PhraseRewrite> = Vec::new();
    v.push(PhraseRewrite { incorrect: "फटा फट", correct: "फटाफट", explanation: "निरर्थक द्वित्व जोडेर लेख्नुपर्छ" });
    v.push(PhraseRewrite { incorrect: "सरा सर", correct: "सरासर", explanation: "निरर्थक द्वित्व जोडेर लेख्नुपर्छ" });
    v.push(PhraseRewrite { incorrect: "हस्याङ फस्याङ", correct: "हस्याङफस्याङ", explanation: "निरर्थक द्वित्व जोडेर लेख्नुपर्छ" });
    assert(rewrites_view(v@) =~= padayog_rule_4().rewrites);
    PadayogRule { code: "3(घ)-पदयोग-६", label: "निरर्थक द्वित्व जोडेर लेख्नुपर्छ", rewrites: v }
}

/// Sub-rule 3(घ)-पदयोग-७: अकरण 'न' जोडेर लेख्नुपर्छ.
pub open spec fn padayog_rule_5() -> PadayogRuleView {
    PadayogRuleView {
        code: "3(घ)-पदयोग-७"@,
        label: "अकरण 'न' जोडेर लेख्नुपर्छ"@,
        rewrites: seq![
        rw("न जाऊ", "नजाऊ", "अकरण 'न' जोडेर लेख्नुपर्छ"),
        rw("खाँ दैन", "खाँदैन", "अकरण 'न' जोडेर लेख्नुपर्छ")
        ],
    }
}

fn make_padayog_rule_5() -> (r: PadayogRule)
    ensures
        r@ == padayog_rule_5(),
{
    let mut v: Vec<PhraseRewrite> = Vec::new();
    v.push(PhraseRewrite { incorrect: "न जाऊ", correct: "नजाऊ", explanation: "अकरण 'न' जोडेर लेख्नुपर्छ" });
    v.push(PhraseRewrite { incorrect: "खाँ दैन", correct: "खाँदैन", explanation: "अकरण 'न' जोडेर लेख्नुपर्छ" });
    assert(rewrites_view(v@) =~= padayog_rule_5().rewrites);
    PadayogRule { code: "3(घ)-पदयोग-७", label: "अकरण 'न' जोडेर लेख्नुपर्छ", rewrites: v }
}

/// Sub-rule 3(घ)-पदयोग-८: मिलित क्रियापद जोडेर लेख्नुपर्छ.
pub open spec fn padayog_rule_6() -> PadayogRuleView {
    PadayogRuleView {
        code: "3(घ)-पदयोग-८"@,
        label: "मिलित क्रियापद जोडेर लेख्नुपर्छ"@,
        rewrites: seq![
        rw("गइ सक्यो", "गइसक्यो", "मिलित क्रियापद जोडेर"),
        rw("गरि हाल", "गरिहाल", "मिलित क्रियापद जोडेर"),
        rw("पढ्नु पर्छ", "पढ्नुपर्छ", "मिलित क्रियापद जोडेर"),
        rw("सुन्नु पर्छ", "सुन्नुपर्छ", "मिलित क्रियापद जोडेर")
        ],
    }
}

fn make_padayog_rule_6() -> (r: PadayogRule)
    ensures
        r@ == padayog_rule_6(),
{
    let mut v: Vec<PhraseRewrite> = Vec::new();
    v.push(PhraseRewrite { incorrect: "गइ सक्यो", correct: "गइसक्यो", explanation: "मिलित क्रियापद जोडेर" });
    v.push(PhraseRewrite { incorrect: "गरि हाल", correct: "गरिहाल", explanation: "मिलित क्रियापद जोडेर" });
    v.push(PhraseRewrite { incorrect: "पढ्नु पर्छ", correct: "पढ्नुपर्छ", explanation: "मिलित क्रियापद जोडेर" });
    v.push(PhraseRewrite { incorrect: "सुन्नु पर्छ", correct: "सुन्नुपर्छ", explanation: "मिलित क्रियापद जोडेर" });
    assert(rewrites_view(v@) =~= padayog_rule_6().rewrites);
    PadayogRule { code: "3(घ)-पदयोग-८", label: "मिलित क्रियापद जोडेर लेख्नुपर्छ", rewrites: v }
}

/// Sub-rule 3(घ)-पदयोग-९: संयोजक जोडेर लेख्नुपर्छ.
pub open spec fn padayog_rule_7() -> PadayogRuleView {
    PadayogRuleView {
        code: "3(घ)-पदयोग-९"@,
        label: "संयोजक जोडेर लेख्नुपर्छ"@,
        rewrites: seq![
        rw("किन भने", "किनभने", "संयोजक जोडेर लेख्नुपर्छ"),
        rw("ताप नि", "तापनि", "संयोजक जोडेर लेख्नुपर्छ"),
        rw("यद्य पि", "यद्यपि", "संयोजक जोडेर लेख्नुपर्छ"),
        rw("तथा पि", "तथापि", "संयोजक जोडेर लेख्नुपर्छ")
        ],
    }
}

fn make_padayog_rule_7() -> (r: PadayogRule)
    ensures
        r@ == padayog_rule_7(),
{
    let mut v: Vec<PhraseRewrite> = Vec::new();
    v.push(PhraseRewrite { incorrect: "किन भने", correct: "किनभने", explanation: "संयोजक जोडेर लेख्नुपर्छ" });
    v.push(PhraseRewrite { incorrect: "ताप नि", correct: "तापनि", explanation: "संयोजक जोडेर लेख्नुपर्छ" });
    v.push(PhraseRewrite { incorrect: "यद्य पि", correct: "यद्यपि", explanation: "संयोजक जोडेर लेख्नुपर्छ" });
    v.push(PhraseRewrite { incorrect: "तथा पि", correct: "तथापि", explanation: "संयोजक जोडेर लेख्नुपर्छ" });
    assert(rewrites_view(v@) =~= padayog_rule_7().rewrites);
    PadayogRule { code: "3(घ)-पदयोग-९", label: "संयोजक जोडेर लेख्नुपर्छ", rewrites: v }
}

/// Sub-rule 3(घ)-पदयोग-१०: ओटा/वर्ग/सम्बन्धी पद जोडेर लेख्नुपर्छ.
pub open spec fn padayog_rule_8() -> PadayogRuleView {
    PadayogRuleView {
        code: "3(घ)-पदयोग-१०"@,
        label: "ओटा/वर्ग/सम्बन्धी पद जोडेर लेख्नुपर्छ"@,
        rewrites: seq![
        rw("तीन ओटा", "तीनओटा", "ओटा पद जोडेर लेख्नुपर्छ"),
        rw("शिक्षक वर्ग", "शिक्षकवर्ग", "वर्ग पद जोडेर लेख्नुपर्छ"),
        rw("ज्ञान सम्बन्धी", "ज्ञानसम्बन्धी", "सम्बन्धी पद जोडेर लेख्नुपर्छ")
        ],
    }
}

fn make_padayog_rule_8() -> (r: PadayogRule)
    ensures
        r@ == padayog_rule_8(),
{
    let mut v: Vec<PhraseRewrite> = Vec::new();
    v.push(PhraseRewrite { incorrect: "तीन ओटा", correct: "तीनओटा", explanation: "ओटा पद जोडेर लेख्नुपर्छ" });
    v.push(PhraseRewrite { incorrect: "शिक्षक वर्ग", correct: "शिक्षकवर्ग", explanation: "वर्ग पद जोडेर लेख्नुपर्छ" });
    v.push(PhraseRewrite { incorrect: "ज्ञान सम्बन्धी", correct: "ज्ञानसम्बन्धी", explanation: "सम्बन्धी पद जोडेर लेख्नुपर्छ" });
    assert(rewrites_view(v@) =~= padayog_rule_8().rewrites);
    PadayogRule { code: "3(घ)-पदयोग-१०", label: "ओटा/वर्ग/सम्बन्धी पद जोडेर लेख्नुपर्छ", rewrites: v }
}

/// Sub-rule 3(घ)-पदयोग-११: सरह तुलना पद जोडेर लेख्नुपर्छ.
pub open spec fn padayog_rule_9() -> PadayogRuleView {
    PadayogRuleView {
        code: "3(घ)-पदयोग-११"@,
        label: "सरह तुलना पद जोडेर लेख्नुपर्छ"@,
        rewrites: seq![
        rw("बुद्धि सरह", "बुद्धिसरह", "तुलना पद जोडेर लेख्नुपर्छ")
        ],
    }
}

fn make_padayog_rule_9() -> (r: PadayogRule)
    ensures
        r@ == padayog_rule_9(),
{
    let mut v: Vec<PhraseRewrite> = Vec::new();
    v.push(PhraseRewrite { incorrect: "बुद्धि सरह", correct: "बुद्धिसरह", explanation: "तुलना पद जोडेर लेख्नुपर्छ" });
    assert(rewrites_view(v@) =~= padayog_rule_9().rewrites);
    PadayogRule { code: "3(घ)-पदयोग-११", label: "सरह तुलना पद जोडेर लेख्नुपर्छ", rewrites: v }
}

/// Sub-rule 3(घ)-पदवियोग-२: विभक्तिपछि नामयोगी छुट्याएर लेख्नुपर्छ.
pub open spec fn padayog_rule_10() -> PadayogRuleView {
    PadayogRuleView {
        code: "3(घ)-पदवियोग-२"@,
        label: "विभक्तिपछि नामयोगी छुट्याएर लेख्नुपर्छ"@,
        rewrites: seq![
        rw("उसकाअगाडि", "उसका अगाडि", "नामयोगी छुट्याएर लेख्नुपर्छ"),
        rw("मुखकापछाडि", "मुखका पछाडि", "नामयोगी छुट्याएर लेख्नुपर्छ")
        ],
    }
}

fn make_padayog_rule_10() -> (r: PadayogRule)
    ensures
        r@ == padayog_rule_10(),
{
    let mut v: Vec<PhraseRewrite> = Vec::new();
    v.push(PhraseRewrite { incorrect: "उसकाअगाडि", correct: "उसका अगाडि", explanation: "नामयोगी छुट्याएर लेख्नुपर्छ" });
    v.push(PhraseRewrite { incorrect: "मुखकापछाडि", correct: "मुखका पछाडि", explanation: "नामयोगी छुट्याएर लेख्नुपर्छ" });
    assert(rewrites_view(v@) =~= padayog_rule_10().rewrites);
    PadayogRule { code: "3(घ)-पदवियोग-२", label: "विभक्तिपछि नामयोगी छुट्याएर लेख्नुपर्छ", rewrites: v }
}

/// Sub-rule 3(घ)-पदवियोग-३: लागि/निम्ति/दोहोरो विभक्ति छुट्याएर.
pub open spec fn padayog_rule_11() -> PadayogRuleView {
    PadayogRuleView {
        code: "3(घ)-पदवियोग-३"@,
        label: "लागि/निम्ति/दोहोरो विभक्ति छुट्याएर"@,
        rewrites: seq![
        rw("देशकालागि", "देशका लागि", "लागि अघि विभक्ति छुट्याउनुपर्छ"),
        rw("मेरानिम्ति", "मेरा निम्ति", "निम्ति अघि विभक्ति छुट्याउनुपर्छ"),
        rw("रामकामा", "रामका मा", "दुई विभक्ति छुट्याउनुपर्छ")
        ],
    }
}

fn make_padayog_rule_11() -> (r: PadayogRule)
    ensures
        r@ == padayog_rule_11(),
{
    let mut v: Vec<PhraseRewrite> = Vec::new();
    v.push(PhraseRewrite { incorrect: "देशकालागि", correct: "देशका लागि", explanation: "लागि अघि विभक्ति छुट्याउनुपर्छ" });
    v.push(PhraseRewrite { incorrect: "मेरानिम्ति", correct: "मेरा निम्ति", explanation: "निम्ति अघि विभक्ति छुट्याउनुपर्छ" });
    v.push(PhraseRewrite { incorrect: "रामकामा", correct: "रामका मा", explanation: "दुई विभक्ति छुट्याउनुपर्छ" });
    assert(rewrites_view(v@) =~= padayog_rule_11().rewrites);
    PadayogRule { code: "3(घ)-पदवियोग-३", label: "लागि/निम्ति/दोहोरो विभक्ति छुट्याएर", rewrites: v }
}

/// Sub-rule 3(घ)-पदवियोग-४: निपात छुट्याएर लेख्नुपर्छ.
pub open spec fn padayog_rule_12() -> PadayogRuleView {
    PadayogRuleView {
        code: "3(घ)-पदवियोग-४"@,
        label: "निपात छुट्याएर लेख्नुपर्छ"@,
        rewrites: seq![
        rw("भनत", "भन त", "निपात छुट्याएर लेख्नुपर्छ"),
        rw("आऊनि", "आऊ नि", "निपात छुट्याएर लेख्नुपर्छ")
        ],
    }
}

fn make_padayog_rule_12() -> (r: PadayogRule)
    ensures
        r@ == padayog_rule_12(),
{
    let mut v: Vec<PhraseRewrite> = Vec::new();
    v.push(PhraseRewrite { incorrect: "भनत", correct: "भन त", explanation: "निपात छुट्याएर लेख्नुपर्छ" });
    v.push(PhraseRewrite { incorrect: "आऊनि", correct: "आऊ नि", explanation: "निपात छुट्याएर लेख्नुपर्छ" });
    assert(rewrites_view(v@) =~= padayog_rule_12().rewrites);
    PadayogRule { code: "3(घ)-पदवियोग-४", label: "निपात छुट्याएर लेख्नुपर्छ", rewrites: v }
}

/// Sub-rule 3(घ)-पदवियोग-५: 'न' संयोजक छुट्याएर लेख्नुपर्छ.
pub open spec fn padayog_rule_13() -> PadayogRuleView {
    PadayogRuleView {
        code: "3(घ)-पदवियोग-५"@,
        label: "'न' संयोजक छुट्याएर लेख्नुपर्छ"@,
        rewrites: seq![
        rw("नयता", "न यता", "'न' संयोजक छुट्याएर लेख्नुपर्छ"),
        rw("नउता", "न उता", "'न' संयोजक छुट्याएर लेख्नुपर्छ")
        ],
    }
}

fn make_padayog_rule_13() -> (r: PadayogRule)
    ensures
        r@ == padayog_rule_13(),
{
    let mut v: Vec<PhraseRewrite> = Vec::new();
    v.push(PhraseRewrite { incorrect: "नयता", correct: "न यता", explanation: "'न' संयोजक छुट्याएर लेख्नुपर्छ" });
    v.push(PhraseRewrite { incorrect: "नउता", correct: "न उता", explanation: "'न' संयोजक छुट्याएर लेख्नुपर्छ" });
    assert(rewrites_view(v@) =~= padayog_rule_13().rewrites);
    PadayogRule { code: "3(घ)-पदवियोग-५", label: "'न' संयोजक छुट्याएर लेख्नुपर्छ", rewrites: v }
}

/// Sub-rule 3(घ)-पदवियोग-६: अपूर्ण/पूर्ण पक्ष क्रियापद छुट्याएर.
pub open spec fn padayog_rule_14() -> PadayogRuleView {
    PadayogRuleView {
        code: "3(घ)-पदवियोग-६"@,
        label: "अपूर्ण/पूर्ण पक्ष क्रियापद छुट्याएर"@,
        rewrites: seq![
        rw("जाँदैछ", "जाँदै छ", "पक्षसूचक क्रियापद छुट्याएर लेख्नुपर्छ"),
        rw("आएकोछ", "आएको छ", "पक्षसूचक क्रियापद छुट्याएर लेख्नुपर्छ")
        ],
    }
}

fn make_padayog_rule_14() -> (r: PadayogRule)
    ensures
        r@ == padayog_rule_14(),
{
    let mut v: Vec<PhraseRewrite> = Vec::new();
    v.push(PhraseRewrite { incorrect: "जाँदैछ", correct: "जाँदै छ", explanation: "पक्षसूचक क्रियापद छुट्याएर लेख्नुपर्छ" });
    v.push(PhraseRewrite { incorrect: "आएकोछ", correct: "आएको छ", explanation: "पक्षसूचक क्रियापद छुट्याएर लेख्नुपर्छ" });
    assert(rewrites_view(v@) =~= padayog_rule_14().rewrites);
    PadayogRule { code: "3(घ)-पदवियोग-६", label: "अपूर्ण/पूर्ण पक्ष क्रियापद छुट्याएर", rewrites: v }
}

/// Sub-rule 3(घ)-पदवियोग-७: 'ने छ' क्रियापद छुट्याएर.
pub open spec fn padayog_rule_15() -> PadayogRuleView {
    PadayogRuleView {
        code: "3(घ)-पदवियोग-७"@,
        label: "'ने छ' क्रियापद छुट्याएर"@,
        rewrites: seq![
        rw("खानेछ", "खाने छ", "'ने छ' छुट्याएर लेख्नुपर्छ"),
        rw("आउनेछ", "आउने छ", "'ने छ' छुट्याएर लेख्नुपर्छ")
        ],
    }
}

fn make_padayog_rule_15() -> (r: PadayogRule)
    ensures
        r@ == padayog_rule_15(),
{
    let mut v: Vec<PhraseRewrite> = Vec::new();
    v.push(PhraseRewrite { incorrect: "खानेछ", correct: "खाने छ", explanation: "'ने छ' छुट्याएर लेख्नुपर्छ" });
    v.push(PhraseRewrite { incorrect: "आउनेछ", correct: "आउने छ", explanation: "'ने छ' छुट्याएर लेख्नुपर्छ" });
    assert(rewrites_view(v@) =~= padayog_rule_15().rewrites);
    PadayogRule { code: "3(घ)-पदवियोग-७", label: "'ने छ' क्रियापद छुट्याएर", rewrites: v }
}

/// Sub-rule 3(घ)-पदवियोग-८: संयुक्त क्रियामा निपात छुट्याएर.
pub open spec fn padayog_rule_16() -> PadayogRuleView {
    PadayogRuleView {
        code: "3(घ)-पदवियोग-८"@,
        label: "संयुक्त क्रियामा निपात छुट्याएर"@,
        rewrites: seq![
        rw("पढ्नुनैपर्छ", "पढ्नु नै पर्छ", "संयुक्त क्रियामा निपात छुट्याएर लेख्नुपर्छ")
        ],
    }
}

fn make_padayog_rule_16() -> (r: PadayogRule)
    ensures
        r@ == padayog_rule_16(),
{
    let mut v: Vec<PhraseRewrite> = Vec::new();
    v.push(PhraseRewrite { incorrect: "पढ्नुनैपर्छ", correct: "पढ्नु नै पर्छ", explanation: "संयुक्त क्रियामा निपात छुट्याएर लेख्नुपर्छ" });
    assert(rewrites_view(v@) =~= padayog_rule_16().rewrites);
    PadayogRule { code: "3(घ)-पदवियोग-८", label: "संयुक्त क्रियामा निपात छुट्याएर", rewrites: v }
}

/// Sub-rule 3(घ)-पदवियोग-९: 'नु'/'न' पछि क्रियापद छुट्याएर.
pub open spec fn padayog_rule_17() -> PadayogRuleView {
    PadayogRuleView {
        code: "3(घ)-पदवियोग-९"@,
        label: "'नु'/'न' पछि क्रियापद छुट्याएर"@,
        rewrites: seq![
        rw("जानुछ", "जानु छ", "'नु' पछि क्रियापद छुट्याएर"),
        rw("भन्नसक्छ", "भन्न सक्छ", "'न' पछि क्रियापद छुट्याएर")
        ],
    }
}

fn make_padayog_rule_17() -> (r: PadayogRule)
    ensures
        r@ == padayog_rule_17(),
{
    let mut v: Vec<PhraseRewrite> = Vec::new();
    v.push(PhraseRewrite { incorrect: "जानुछ", correct: "जानु छ", explanation: "'नु' पछि क्रियापद छुट्याएर" });
    v.push(PhraseRewrite { incorrect: "भन्नसक्छ", correct: "भन्न सक्छ", explanation: "'न' पछि क्रियापद छुट्याएर" });
    assert(rewrites_view(v@) =~= padayog_rule_17().rewrites);
    PadayogRule { code: "3(घ)-पदवियोग-९", label: "'नु'/'न' पछि क्रियापद छुट्याएर", rewrites: v }
}

/// Sub-rule 3(घ)-पदवियोग-१०: सार्थक द्वित्व छुट्याएर.
pub open spec fn padayog_rule_18() -> PadayogRuleView {
    PadayogRuleView {
        code: "3(घ)-पदवियोग-१०"@,
        label: "सार्थक द्वित्व छुट्याएर"@,
        rewrites: seq![
        
        ],
    }
}

fn make_padayog_rule_18() -> (r: PadayogRule)
    ensures
        r@ == padayog_rule_18(),
{
    let mut v: Vec<PhraseRewrite> = Vec::new();
    assert(rewrites_view(v@) =~= padayog_rule_18().rewrites);
    PadayogRule { code: "3(घ)-पदवियोग-१०", label: "सार्थक द्वित्व छुट्याएर", rewrites: v }
}

/// Sub-rule 3(घ)-पदवियोग-११: जना/थरी जस्ता कोटिकर पद छुट्याएर.
pub open spec fn padayog_rule_19() -> PadayogRuleView {
    PadayogRuleView {
        code: "3(घ)-पदवियोग-११"@,
        label: "जना/थरी जस्ता कोटिकर पद छुट्याएर"@,
        rewrites: seq![
        rw("चारजना", "चार जना", "कोटिकर पद छुट्याएर"),
        rw("सयथरी", "सय थरी", "कोटिकर पद छुट्याएर")
        ],
    }
}

fn make_padayog_rule_19() -> (r: PadayogRule)
    ensures
        r@ == padayog_rule_19(),
{
    let mut v: Vec<PhraseRewrite> = Vec::new();
    v.push(PhraseRewrite { incorrect: "चारजना", correct: "चार जना", explanation: "कोटिकर पद छुट्याएर" });
    v.push(PhraseRewrite { incorrect: "सयथरी", correct: "सय थरी", explanation: "कोटिकर पद छुट्याएर" });
    assert(rewrites_view(v@) =~= padayog_rule_19().rewrites);
    PadayogRule { code: "3(घ)-पदवियोग-११", label: "जना/थरी जस्ता कोटिकर पद छुट्याएर", rewrites: v }
}

/// Sub-rule 3(घ)-पदवियोग-१२: शीर्ष नाम छुट्याएर लेख्नुपर्छ.
pub open spec fn padayog_rule_20() -> PadayogRuleView {
    PadayogRuleView {
        code: "3(घ)-पदवियोग-१२"@,
        label: "शीर्ष नाम छुट्याएर लेख्नुपर्छ"@,
        rewrites: seq![
        rw("कास्कीजिल्ला", "कास्की जिल्ला", "शीर्ष नाम छुट्याएर"),
        rw("कोसीनदी", "कोसी नदी", "शीर्ष नाम छुट्याएर")
        ],
    }
}

fn make_padayog_rule_20() -> (r: PadayogRule)
    ensures
        r@ == padayog_rule_20(),
{
    let mut v: Vec<PhraseRewrite> = Vec::new();
    v.push(PhraseRewrite { incorrect: "कास्कीजिल्ला", correct: "कास्की जिल्ला", explanation: "शीर्ष नाम छुट्याएर" });
    v.push(PhraseRewrite { incorrect: "कोसीनदी", correct: "कोसी नदी", explanation: "शीर्ष नाम छुट्याएर" });
    assert(rewrites_view(v@) =~= padayog_rule_20().rewrites);
    PadayogRule { code: "3(घ)-पदवियोग-१२", label: "शीर्ष नाम छुट्याएर लेख्नुपर्छ", rewrites: v }
}

/// Sub-rule 3(घ)-पदवियोग-१३: विशेषण र नाम छुट्याएर लेख्नुपर्छ.
pub open spec fn padayog_rule_21() -> PadayogRuleView {
    PadayogRuleView {
        code: "3(घ)-पदवियोग-१३"@,
        label: "विशेषण र नाम छुट्याएर लेख्नुपर्छ"@,
        rewrites: seq![
        rw("भित्तेपात्रो", "भित्ते पात्रो", "विशेषण-नाम छुट्याएर"),
        rw("शुभसमाचार", "शुभ समाचार", "विशेषण-नाम छुट्याएर"),
        rw("खानेपानी", "खाने पानी", "विशेषण-नाम छुट्याएर")
        ],
    }
}

fn make_padayog_rule_21() -> (r: PadayogRule)
    ensures
        r@ == padayog_rule_21(),
{
    let mut v: Vec<PhraseRewrite> = Vec::new();
    v.push(PhraseRewrite { incorrect: "भित्तेपात्रो", correct: "भित्ते पात्रो", explanation: "विशेषण-नाम छुट्याएर" });
    v.push(PhraseRewrite { incorrect: "शुभसमाचार", correct: "शुभ समाचार", explanation: "विशेषण-नाम छुट्याएर" });
    v.push(PhraseRewrite { incorrect: "खानेपानी", correct: "खाने पानी", explanation: "विशेषण-नाम छुट्याएर" });
    assert(rewrites_view(v@) =~= padayog_rule_21().rewrites);
    PadayogRule { code: "3(घ)-पदवियोग-१३", label: "विशेषण र नाम छुट्याएर लेख्नुपर्छ", rewrites: v }
}

/// The (घ) sub-rules, in the Academy's order.
pub open spec fn padayog_table() -> Seq<PadayogRuleView> {
    seq![
        padayog_rule_0(),
        padayog_rule_1(),
        padayog_rule_2(),
        padayog_rule_3(),
        padayog_rule_4(),
        padayog_rule_5(),
        padayog_rule_6(),
        padayog_rule_7(),
        padayog_rule_8(),
        padayog_rule_9(),
        padayog_rule_10(),
        padayog_rule_11(),
        padayog_rule_12(),
        padayog_rule_13(),
        padayog_rule_14(),
        padayog_rule_15(),
        padayog_rule_16(),
        padayog_rule_17(),
        padayog_rule_18(),
        padayog_rule_19(),
        padayog_rule_20(),
        padayog_rule_21()
    ]
}

/// Sub-rules by content.
pub open spec fn padayog_rules_view(v: Seq<PadayogRule>) -> Seq<PadayogRuleView> {
    v.map_values(|r: PadayogRule| r@)
}

/// The (घ) sub-rules, in the Academy's order.
pub fn padayog_padabiyog_rules() -> (r: Vec<PadayogRule>)
    ensures
        padayog_rules_view(r@) == padayog_table(),
{
    let mut r: Vec<PadayogRule> = Vec::new();
    r.push(make_padayog_rule_0());
    r.push(make_padayog_rule_1());
    r.push(make_padayog_rule_2());
    r.push(make_padayog_rule_3());
    r.push(make_padayog_rule_4());
    r.push(make_padayog_rule_5());
    r.push(make_padayog_rule_6());
    r.push(make_padayog_rule_7());
    r.push(make_padayog_rule_8());
    r.push(make_padayog_rule_9());
    r.push(make_padayog_rule_10());
    r.push(make_padayog_rule_11());
    r.push(make_padayog_rule_12());
    r.push(make_padayog_rule_13());
    r.push(make_padayog_rule_14());
    r.push(make_padayog_rule_15());
    r.push(make_padayog_rule_16());
    r.push(make_padayog_rule_17());
    r.push(make_padayog_rule_18());
    r.push(make_padayog_rule_19());
    r.push(make_padayog_rule_20());
    r.push(make_padayog_rule_21());
    assert(padayog_rules_view(r@) =~= padayog_table());
    r
}

} // verus!
