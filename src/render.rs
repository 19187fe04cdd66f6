use vstd::prelude::*;
use crate::schema::{Definition, Dictionary, Etymology, PartOfSpeech, Sense};

verus! {

/// One line of a rendered definition. How each kind of line is styled
/// (colour, weight, indentation) is left to the terminal front end.
#[derive(Debug, Clone, PartialEq, Eq)]
pub enum Line {
    /// The word itself, as a heading.
    Word(String),
    /// "Etymology N:", numbered from 1; only shown when a word has several.
    EtymologyHeader(usize),
    /// A part-of-speech label.
    PartOfSpeech(String),
    /// "N. meaning", numbered from 1 within its part of speech.
    Sense(usize, String),
    /// The period of use of the sense above, shown in brackets.
    Date(String),
    /// An example sentence of the sense above, shown in quotes.
    Example(String),
    /// The separator after each etymology.
    Blank,
}

/// The lines of one sense numbered `n`.
pub open spec fn sense_lines(s: Sense, n: nat, show_examples: bool) -> Seq<Line> {
    seq![Line::Sense(n as usize, s.sense)] + (match s.date {
        Some(d) => if d@.len() > 0 {
            seq![Line::Date(d)]
        } else {
            Seq::empty()
        },
        None => Seq::empty(),
    }) + if show_examples {
        s.examples@.map_values(|e: String| Line::Example(e))
    } else {
        Seq::empty()
    }
}

/// The lines of the first `n` senses of `ss`.
pub open spec fn senses_lines(ss: Seq<Sense>, n: nat, show_examples: bool) -> Seq<Line>
    decreases n,
{
    if n == 0 {
        Seq::empty()
    } else {
        senses_lines(ss, (n - 1) as nat, show_examples) + sense_lines(ss[n - 1], n, show_examples)
    }
}

/// The lines of one part of speech: its label, then its senses.
pub open spec fn part_lines(p: PartOfSpeech, show_examples: bool) -> Seq<Line> {
    seq![Line::PartOfSpeech(p.part_of_speech)] + senses_lines(
        p.senses@,
        p.senses@.len(),
        show_examples,
    )
}

/// The lines of the first `n` parts of speech of `ps`.
pub open spec fn parts_lines(ps: Seq<PartOfSpeech>, n: nat, show_examples: bool) -> Seq<Line>
    decreases n,
{
    if n == 0 {
        Seq::empty()
    } else {
        parts_lines(ps, (n - 1) as nat, show_examples) + part_lines(ps[n - 1], show_examples)
    }
}

/// The lines of the etymology numbered `n`: a header when the word has
/// several, its parts of speech, then a blank separator.
pub open spec fn etymology_lines(e: Etymology, n: nat, several: bool, show_examples: bool) -> Seq<
    Line,
> {
    (if several {
        seq![Line::EtymologyHeader(n as usize)]
    } else {
        Seq::empty()
    }) + parts_lines(e.parts_of_speech@, e.parts_of_speech@.len(), show_examples) + seq![
        Line::Blank,
    ]
}

/// The lines of the first `n` etymologies of `es`.
pub open spec fn etymologies_lines(
    es: Seq<Etymology>,
    n: nat,
    several: bool,
    show_examples: bool,
) -> Seq<Line>
    decreases n,
{
    if n == 0 {
        Seq::empty()
    } else {
        etymologies_lines(es, (n - 1) as nat, several, show_examples) + etymology_lines(
            es[n - 1],
            n,
            several,
            show_examples,
        )
    }
}

/// The whole rendering of a definition: the word, then each etymology in
/// order.
pub open spec fn definition_lines(d: Definition, show_examples: bool) -> Seq<Line> {
    seq![Line::Word(d.word)] + etymologies_lines(
        d.etymologies@,
        d.etymologies@.len(),
        d.etymologies@.len() > 1,
        show_examples,
    )
}

fn push_sense(out: &mut Vec<Line>, s: &Sense, n: usize, show_examples: bool)
    ensures
        final(out)@ == old(out)@ + sense_lines(*s, n as nat, show_examples),
{
    let ghost start = out@;
    out.push(Line::Sense(n, s.sense.clone()));
    if let Some(d) = &s.date {
        if !d.as_str().is_empty() {
            out.push(Line::Date(d.clone()));
        }
    }
    let ghost dated = out@;
    if show_examples {
        let mut j: usize = 0;
        while j < s.examples.len()
            invariant
                j <= s.examples@.len(),
                out@ == dated + s.examples@.subrange(0, j as int).map_values(
                    |e: String| Line::Example(e),
                ),
            decreases s.examples@.len() - j,
        {
            out.push(Line::Example(s.examples[j].clone()));
            j = j + 1;
            assert(s.examples@.subrange(0, j as int) == s.examples@.subrange(0, j - 1).push(
                s.examples@[j - 1],
            ));
            assert(out@ =~= dated + s.examples@.subrange(0, j as int).map_values(
                |e: String| Line::Example(e),
            ));
        }
        assert(s.examples@.subrange(0, j as int) == s.examples@);
    }
    assert(out@ =~= start + sense_lines(*s, n as nat, show_examples));
}

fn push_part(out: &mut Vec<Line>, p: &PartOfSpeech, show_examples: bool)
    ensures
        final(out)@ == old(out)@ + part_lines(*p, show_examples),
{
    let ghost start = out@;
    out.push(Line::PartOfSpeech(p.part_of_speech.clone()));
    let ghost head = out@;
    let mut i: usize = 0;
    while i < p.senses.len()
        invariant
            i <= p.senses@.len(),
            out@ == head + senses_lines(p.senses@, i as nat, show_examples),
        decreases p.senses@.len() - i,
    {
        push_sense(out, &p.senses[i], i + 1, show_examples);
        i = i + 1;
        assert(out@ =~= head + senses_lines(p.senses@, i as nat, show_examples));
    }
    assert(out@ =~= start + part_lines(*p, show_examples));
}

fn push_etymology(out: &mut Vec<Line>, e: &Etymology, n: usize, several: bool, show_examples: bool)
    ensures
        final(out)@ == old(out)@ + etymology_lines(*e, n as nat, several, show_examples),
{
    let ghost start = out@;
    if several {
        out.push(Line::EtymologyHeader(n));
    }
    let ghost head = out@;
    let mut i: usize = 0;
    while i < e.parts_of_speech.len()
        invariant
            i <= e.parts_of_speech@.len(),
            out@ == head + parts_lines(e.parts_of_speech@, i as nat, show_examples),
        decreases e.parts_of_speech@.len() - i,
    {
        push_part(out, &e.parts_of_speech[i], show_examples);
        i = i + 1;
        assert(out@ =~= head + parts_lines(e.parts_of_speech@, i as nat, show_examples));
    }
    out.push(Line::Blank);
    assert(out@ =~= start + etymology_lines(*e, n as nat, several, show_examples));
}

impl Definition {
    /// Lays a definition out line by line: the word; for each etymology in
    /// order a numbered header (only when there are several), each part of
    /// speech with its numbered senses, each sense's non-empty date, its
    /// examples when `show_examples` holds, and a blank line after the
    /// etymology.
    pub fn render(&self, show_examples: bool) -> (r: Vec<Line>)
        ensures
            r@ == definition_lines(*self, show_examples),
    {
        let mut out: Vec<Line> = Vec::new();
        out.push(Line::Word(self.word.clone()));
        let ghost head = out@;
        let several = self.etymologies.len() > 1;
        let mut i: usize = 0;
        while i < self.etymologies.len()
            invariant
                i <= self.etymologies@.len(),
                several == (self.etymologies@.len() > 1),
                out@ == head + etymologies_lines(self.etymologies@, i as nat, several, show_examples),
            decreases self.etymologies@.len() - i,
        {
            push_etymology(&mut out, &self.etymologies[i], i + 1, several, show_examples);
            i = i + 1;
            assert(out@ =~= head + etymologies_lines(
                self.etymologies@,
                i as nat,
                several,
                show_examples,
            ));
        }
        assert(out@ =~= definition_lines(*self, show_examples));
        out
    }
}

impl Dictionary {
    /// Looks `word` up exactly as given and lays out its definition; `None`
    /// when the shard does not hold the word, which is an ordinary answer and
    /// not a failure.
    pub fn define(&self, word: &String, show_examples: bool) -> (r: Option<Vec<Line>>)
        requires
            self.wf(),
        ensures
            r matches Some(lines) ==> self@.contains_key(word@) && lines@ == definition_lines(
                self@[word@],
                show_examples,
            ),
            r is None <==> !self@.contains_key(word@),
    {
        match self.get(word) {
            Some(d) => Some(d.render(show_examples)),
            None => None,
        }
    }
}

} // verus!
