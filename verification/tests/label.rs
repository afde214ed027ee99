use parse_errors::error::{Error, Simple, SimplePattern};
use parse_errors::input::{Checkpoint, Errors, InputRef, Located, Parser};
use parse_errors::label::Labelled;
use parse_errors::span::Interval;

type Failure = Simple<char, Interval<usize>>;

fn span(start: usize, end: usize) -> Interval<usize> {
    Interval { start, end }
}

fn failure(at: usize, expected: &[char], found: Option<char>) -> Failure {
    Failure::expected_token_found(span(at, at + 1), expected.to_vec(), found)
}

fn tokens(expected: &[char]) -> Vec<SimplePattern<char>> {
    expected.iter().map(|c| SimplePattern::Token(*c)).collect()
}

/// A parser that reads nothing and replays a fixed run: it records the
/// given failures, moves the cursor, and succeeds or not as it is told.
#[derive(Clone)]
struct Replay {
    alt: Option<(usize, Vec<char>, Option<char>)>,
    secondary: Vec<usize>,
    end: usize,
    succeeds: bool,
}

impl Replay {
    fn failing(at: usize, expected: &[char], found: Option<char>) -> Replay {
        Replay { alt: Some((at, expected.to_vec(), found)), secondary: vec![], end: at, succeeds: false }
    }

    fn succeeding(end: usize) -> Replay {
        Replay { alt: None, secondary: vec![], end, succeeds: true }
    }

    fn with_secondary(mut self, at: &[usize]) -> Replay {
        self.secondary = at.to_vec();
        self
    }
}

impl Parser<Failure> for Replay {
    type Output = usize;

    fn go(&self, inp: &mut InputRef<usize, Failure>) -> Option<usize> {
        assert!(inp.errors.alt.is_none(), "the outer alternative is set aside during the run");
        for at in &self.secondary {
            inp.errors.emit(*at, failure(*at, &['!'], None));
        }
        if let Some((at, expected, found)) = &self.alt {
            inp.errors.add_alt_err(*at, failure(*at, expected, *found));
        }
        inp.cursor = self.end;
        if self.succeeds {
            Some(self.end)
        } else {
            None
        }
    }
}

const DIGITS: [char; 10] = ['0', '1', '2', '3', '4', '5', '6', '7', '8', '9'];

#[test]
fn direct_relabel_replaces_the_expected_tokens() {
    let parser = Labelled::new(Replay::failing(0, &DIGITS, Some('a')), "digit");
    let mut inp: InputRef<usize, Failure> = InputRef::new(0);
    let res = parser.go(&mut inp);
    assert_eq!(res, None);
    let alt = inp.errors.alt.expect("a failure is left");
    assert_eq!(alt.pos, 0);
    assert_eq!(alt.err.expected().to_vec(), vec![SimplePattern::Labelled("digit")]);
    assert_eq!(alt.err.found(), Some(&'a'));
    assert_eq!(alt.err.span(), span(0, 1));
    assert!(alt.err.contexts().is_empty());
    assert!(inp.errors.secondary.is_empty());
}

#[test]
fn direct_relabel_also_where_the_label_is_a_context() {
    let parser = Labelled::new(Replay::failing(4, &DIGITS, Some('a')), "digit").as_context();
    let mut inp: InputRef<usize, Failure> = InputRef::new(4);
    assert_eq!(parser.go(&mut inp), None);
    let alt = inp.errors.alt.expect("a failure is left");
    assert_eq!(alt.pos, 4);
    assert_eq!(alt.err.expected().to_vec(), vec![SimplePattern::Labelled("digit")]);
    assert!(alt.err.contexts().is_empty());
}

#[test]
fn context_wrap_keeps_the_expected_tokens() {
    let parser = Labelled::new(Replay::failing(2, &[')'], None), "parenthesized").as_context();
    let mut inp: InputRef<usize, Failure> = InputRef::new(0);
    assert_eq!(parser.go(&mut inp), None);
    let alt = inp.errors.alt.expect("a failure is left");
    assert_eq!(alt.pos, 2);
    assert_eq!(alt.err.expected().to_vec(), vec![SimplePattern::Token(')')]);
    assert_eq!(alt.err.contexts().to_vec(), vec![("parenthesized", span(0, 2))]);
    assert_eq!(alt.err.found(), None);
    assert_eq!(alt.err.span(), span(2, 3));
}

#[test]
fn failure_after_progress_is_left_alone_without_context() {
    let parser = Labelled::new(Replay::failing(2, &[')'], None), "parenthesized");
    let mut inp: InputRef<usize, Failure> = InputRef::new(0);
    assert_eq!(parser.go(&mut inp), None);
    let alt = inp.errors.alt.expect("a failure is left");
    assert_eq!(alt, Located { pos: 2, err: failure(2, &[')'], None) });
}

#[test]
fn success_and_value_pass_through() {
    let parser = Labelled::new(Replay::succeeding(3), "word").as_context();
    let mut inp: InputRef<usize, Failure> = InputRef::new(1);
    assert_eq!(parser.go(&mut inp), Some(3));
    assert_eq!(inp.cursor, 3);
    assert_eq!(inp.errors.alt, None);
    assert!(inp.errors.secondary.is_empty());
}

#[test]
fn success_with_a_failed_alternative_still_labels_it() {
    let mut inner = Replay::failing(1, &['+'], Some('-'));
    inner.succeeds = true;
    inner.end = 1;
    let parser = Labelled::new(inner, "operator");
    let mut inp: InputRef<usize, Failure> = InputRef::new(1);
    assert_eq!(parser.go(&mut inp), Some(1));
    let alt = inp.errors.alt.expect("the alternative is kept");
    assert_eq!(alt.err.expected().to_vec(), vec![SimplePattern::Labelled("operator")]);
}

#[test]
fn outer_alternative_further_on_is_kept() {
    let parser = Labelled::new(Replay::failing(2, &DIGITS, Some('a')), "digit");
    let mut inp: InputRef<usize, Failure> = InputRef::new(2);
    inp.errors.add_alt_err(5, failure(5, &['x'], None));
    assert_eq!(parser.go(&mut inp), None);
    assert_eq!(inp.errors.alt, Some(Located { pos: 5, err: failure(5, &['x'], None) }));
}

#[test]
fn outer_alternative_is_restored_when_the_run_leaves_none() {
    let parser = Labelled::new(Replay::succeeding(4), "digit").as_context();
    let mut inp: InputRef<usize, Failure> = InputRef::new(2);
    inp.errors.add_alt_err(1, failure(1, &['x'], None));
    assert_eq!(parser.go(&mut inp), Some(4));
    assert_eq!(inp.errors.alt, Some(Located { pos: 1, err: failure(1, &['x'], None) }));
}

#[test]
fn outer_alternative_behind_gives_way() {
    let parser = Labelled::new(Replay::failing(3, &[')'], None), "group").as_context();
    let mut inp: InputRef<usize, Failure> = InputRef::new(1);
    inp.errors.add_alt_err(1, failure(1, &['x'], None));
    assert_eq!(parser.go(&mut inp), None);
    let alt = inp.errors.alt.expect("a failure is left");
    assert_eq!(alt.pos, 3);
    assert_eq!(alt.err.expected().to_vec(), tokens(&[')']));
    assert_eq!(alt.err.contexts().to_vec(), vec![("group", span(1, 3))]);
}

#[test]
fn outer_alternative_at_the_same_position_takes_the_label_in() {
    let parser = Labelled::new(Replay::failing(2, &DIGITS, Some('a')), "digit");
    let mut inp: InputRef<usize, Failure> = InputRef::new(2);
    inp.errors.add_alt_err(2, failure(2, &['x'], Some('a')));
    assert_eq!(parser.go(&mut inp), None);
    let alt = inp.errors.alt.expect("a failure is left");
    assert_eq!(alt.pos, 2);
    assert_eq!(
        alt.err.expected().to_vec(),
        vec![SimplePattern::Token('x'), SimplePattern::Labelled("digit")]
    );
    assert_eq!(alt.err.found(), Some(&'a'));
}

#[test]
fn nested_contexts_are_recorded_innermost_first() {
    let inner = Labelled::new(Replay::failing(6, &[')'], None), "call").as_context();
    let outer = Labelled::new(inner, "body").as_context();
    let mut inp: InputRef<usize, Failure> = InputRef::new(2);
    assert_eq!(outer.go(&mut inp), None);
    let alt = inp.errors.alt.expect("a failure is left");
    assert_eq!(alt.err.contexts().to_vec(), vec![("call", span(2, 6)), ("body", span(2, 6))]);
    assert_eq!(alt.err.expected().to_vec(), tokens(&[')']));
}

#[test]
fn nested_labels_at_the_entry_leave_the_outer_label() {
    let inner = Labelled::new(Replay::failing(2, &DIGITS, None), "digit");
    let outer = Labelled::new(inner, "number").as_context();
    let mut inp: InputRef<usize, Failure> = InputRef::new(2);
    assert_eq!(outer.go(&mut inp), None);
    let alt = inp.errors.alt.expect("a failure is left");
    assert_eq!(alt.err.expected().to_vec(), vec![SimplePattern::Labelled("number")]);
    assert!(alt.err.contexts().is_empty());
}

#[test]
fn secondary_errors_of_the_run_get_the_context() {
    let inner = Replay::succeeding(9).with_secondary(&[4, 7]);
    let parser = Labelled::new(inner, "block").as_context();
    let mut inp: InputRef<usize, Failure> = InputRef::new(3);
    inp.errors.emit(1, failure(1, &['a'], None));
    inp.errors.emit(2, failure(2, &['b'], Some('c')));
    assert_eq!(parser.go(&mut inp), Some(9));
    let secondary = &inp.errors.secondary;
    assert_eq!(secondary.len(), 4);
    assert_eq!(secondary[0], Located { pos: 1, err: failure(1, &['a'], None) });
    assert_eq!(secondary[1], Located { pos: 2, err: failure(2, &['b'], Some('c')) });
    assert!(secondary[0].err.contexts().is_empty());
    assert!(secondary[1].err.contexts().is_empty());
    assert_eq!(secondary[2].pos, 4);
    assert_eq!(secondary[2].err.contexts().to_vec(), vec![("block", span(3, 4))]);
    assert_eq!(secondary[2].err.expected().to_vec(), tokens(&['!']));
    assert_eq!(secondary[3].pos, 7);
    assert_eq!(secondary[3].err.contexts().to_vec(), vec![("block", span(3, 7))]);
}

#[test]
fn secondary_error_at_the_entry_gets_an_empty_span() {
    let inner = Replay::succeeding(3).with_secondary(&[3]);
    let parser = Labelled::new(inner, "block").as_context();
    let mut inp: InputRef<usize, Failure> = InputRef::new(3);
    assert_eq!(parser.go(&mut inp), Some(3));
    assert_eq!(inp.errors.secondary[0].err.contexts().to_vec(), vec![("block", span(3, 3))]);
}

#[test]
fn secondary_errors_stay_as_they_are_without_context() {
    let inner = Replay::succeeding(9).with_secondary(&[4, 7]);
    let parser = Labelled::new(inner, "block");
    let mut inp: InputRef<usize, Failure> = InputRef::new(3);
    inp.errors.emit(1, failure(1, &['a'], None));
    assert_eq!(parser.go(&mut inp), Some(9));
    assert_eq!(
        inp.errors.secondary,
        vec![
            Located { pos: 1, err: failure(1, &['a'], None) },
            Located { pos: 4, err: failure(4, &['!'], None) },
            Located { pos: 7, err: failure(7, &['!'], None) },
        ]
    );
}

#[test]
fn nested_contexts_mark_secondary_errors_of_their_own_run_only() {
    let inner = Labelled::new(Replay::succeeding(9).with_secondary(&[6]), "inner").as_context();
    let outer = Labelled::new(inner, "outer").as_context();
    let mut inp: InputRef<usize, Failure> = InputRef::new(5);
    inp.errors.emit(0, failure(0, &['a'], None));
    assert_eq!(outer.go(&mut inp), Some(9));
    assert!(inp.errors.secondary[0].err.contexts().is_empty());
    assert_eq!(
        inp.errors.secondary[1].err.contexts().to_vec(),
        vec![("inner", span(5, 6)), ("outer", span(5, 6))]
    );
}

#[test]
fn label_alt_decides_by_the_position_of_the_failure() {
    let plain = Labelled::new((), "item");
    let context = plain.as_context();

    let at_entry = plain.label_alt::<Failure>(3, Located { pos: 3, err: failure(3, &['a'], None) });
    assert_eq!(at_entry.pos, 3);
    assert_eq!(at_entry.err.expected().to_vec(), vec![SimplePattern::Labelled("item")]);

    let later = plain.label_alt::<Failure>(3, Located { pos: 4, err: failure(4, &['a'], None) });
    assert_eq!(later, Located { pos: 4, err: failure(4, &['a'], None) });

    let later = context.label_alt::<Failure>(3, Located { pos: 4, err: failure(4, &['a'], None) });
    assert_eq!(later.pos, 4);
    assert_eq!(later.err.expected().to_vec(), tokens(&['a']));
    assert_eq!(later.err.contexts().to_vec(), vec![("item", span(3, 4))]);

    let earlier = context.label_alt::<Failure>(3, Located { pos: 2, err: failure(2, &['a'], None) });
    assert_eq!(earlier, Located { pos: 2, err: failure(2, &['a'], None) });
}

#[test]
fn label_secondary_starts_at_the_checkpoint() {
    let context = Labelled::new((), "item").as_context();
    let mut errors: Errors<usize, Failure> = Errors::new();
    errors.emit(1, failure(1, &['a'], None));
    errors.emit(5, failure(5, &['b'], None));
    errors.emit(6, failure(6, &['c'], None));
    errors.add_alt_err(2, failure(2, &['d'], None));
    context.label_secondary(&mut errors, Checkpoint { cursor: 4, err_count: 1 });
    assert!(errors.secondary[0].err.contexts().is_empty());
    assert_eq!(errors.secondary[1].err.contexts().to_vec(), vec![("item", span(4, 5))]);
    assert_eq!(errors.secondary[2].err.contexts().to_vec(), vec![("item", span(4, 6))]);
    assert_eq!(errors.alt, Some(Located { pos: 2, err: failure(2, &['d'], None) }));

    context.label_secondary(&mut errors, Checkpoint { cursor: 4, err_count: 3 });
    assert_eq!(errors.secondary[2].err.contexts().len(), 1);
}

#[test]
fn label_failures_rewrites_alternative_and_secondary_errors() {
    let context = Labelled::new((), "group").as_context();
    let mut errors: Errors<usize, Failure> = Errors::new();
    errors.emit(0, failure(0, &['a'], None));
    let before = Checkpoint { cursor: 1, err_count: 1 };
    errors.emit(3, failure(3, &['b'], None));
    errors.add_alt_err(2, failure(2, &[')'], None));
    let outer = Some(Located { pos: 2, err: failure(2, &[']'], Some('x')) });
    context.label_failures(&mut errors, before, outer);
    let alt = errors.alt.expect("a failure is left");
    assert_eq!(alt.pos, 2);
    assert_eq!(alt.err.expected().to_vec(), tokens(&[']', ')']));
    assert_eq!(alt.err.found(), Some(&'x'));
    assert!(errors.secondary[0].err.contexts().is_empty());
    assert_eq!(errors.secondary[1].err.contexts().to_vec(), vec![("group", span(1, 3))]);
}

#[test]
fn as_context_keeps_parser_and_label() {
    let plain = Labelled::new(Replay::failing(2, &[')'], None), "group");
    let context = plain.clone().as_context().as_context();
    let mut a: InputRef<usize, Failure> = InputRef::new(0);
    let mut b: InputRef<usize, Failure> = InputRef::new(0);
    assert_eq!(plain.go(&mut a), None);
    assert_eq!(context.go(&mut b), None);
    assert!(a.errors.alt.expect("left").err.contexts().is_empty());
    assert_eq!(b.errors.alt.expect("left").err.contexts().to_vec(), vec![("group", span(0, 2))]);
}

#[test]
fn add_alt_err_takes_the_first_failure() {
    let mut errors: Errors<usize, Failure> = Errors::new();
    assert_eq!(errors.alt, None);
    errors.add_alt_err(3, failure(3, &['a'], None));
    assert_eq!(errors.alt, Some(Located { pos: 3, err: failure(3, &['a'], None) }));
    assert!(errors.secondary.is_empty());
}

#[test]
fn add_alt_err_prefers_the_failure_further_on() {
    let mut errors: Errors<usize, Failure> = Errors::new();
    errors.add_alt_err(3, failure(3, &['a'], None));
    errors.add_alt_err(5, failure(5, &['b'], Some('c')));
    assert_eq!(errors.alt, Some(Located { pos: 5, err: failure(5, &['b'], Some('c')) }));
    errors.add_alt_err(4, failure(4, &['d'], None));
    assert_eq!(errors.alt, Some(Located { pos: 5, err: failure(5, &['b'], Some('c')) }));
}

#[test]
fn add_alt_err_merges_failures_at_the_same_position() {
    let mut errors: Errors<usize, Failure> = Errors::new();
    errors.add_alt_err(3, failure(3, &['a'], Some('x')));
    errors.add_alt_err(3, failure(3, &['b', 'c'], Some('y')));
    let alt = errors.alt.expect("a failure is left");
    assert_eq!(alt.pos, 3);
    assert_eq!(alt.err.expected().to_vec(), tokens(&['a', 'b', 'c']));
    assert_eq!(alt.err.found(), Some(&'x'));
}

#[test]
fn emit_records_in_order_and_save_counts() {
    let mut inp: InputRef<usize, Failure> = InputRef::new(7);
    assert_eq!(inp.save(), Checkpoint { cursor: 7, err_count: 0 });
    inp.errors.emit(9, failure(9, &['a'], None));
    inp.errors.emit(8, failure(8, &['b'], None));
    inp.cursor = 10;
    assert_eq!(inp.save(), Checkpoint { cursor: 10, err_count: 2 });
    assert_eq!(inp.errors.secondary[0].pos, 9);
    assert_eq!(inp.errors.secondary[1].pos, 8);
    assert_eq!(inp.errors.alt, None);
}
