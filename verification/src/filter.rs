//! Filter configuration of the logger: which source of directives wins, and
//! the `env_logger` builder that carries the outcome.

use vstd::prelude::*;
use env_logger::Builder;
use crate::level::LevelFilter;

verus! {

/// `env_logger::Builder`, of which only what the functions below state is
/// known.
#[verifier::external_type_specification]
#[verifier::external_body]
pub struct ExBuilder(env_logger::Builder);

/// The filter directives that a builder holds, oldest first: the module that
/// a directive speaks of (`None` for all modules) and the code of its level.
pub uninterp spec fn directives(builder: Builder) -> Seq<(Option<Seq<char>>, int)>;

/// Whether the logger that a builder describes writes to standard output.
pub uninterp spec fn writes_to_stdout(builder: Builder) -> bool;

/// The directives that `env_logger` reads out of a filter string, in the
/// order in which they stand in it.
pub uninterp spec fn parsed_directives(filters: Seq<char>) -> Seq<(Option<Seq<char>>, int)>;

/// Puts `d` in the place of the first directive for the same module, or at the
/// end where there is none.
pub open spec fn upsert(ds: Seq<(Option<Seq<char>>, int)>, d: (Option<Seq<char>>, int)) -> Seq<
    (Option<Seq<char>>, int),
>
    decreases ds.len(),
{
    if ds.len() == 0 {
        seq![d]
    } else if ds[0].0 == d.0 {
        ds.update(0, d)
    } else {
        seq![ds[0]] + upsert(ds.drop_first(), d)
    }
}

/// Upserts the directives of `more` into `ds`, first to last.
pub open spec fn merge(ds: Seq<(Option<Seq<char>>, int)>, more: Seq<(Option<Seq<char>>, int)>) -> Seq<
    (Option<Seq<char>>, int),
>
    decreases more.len(),
{
    if more.len() == 0 {
        ds
    } else {
        merge(upsert(ds, more[0]), more.drop_first())
    }
}

/// An optional string as it stands in contracts.
pub open spec fn text_view(text: Option<&str>) -> Option<Seq<char>> {
    match text {
        Some(s) => Some(s@),
        None => None,
    }
}

/// `env_logger::Builder::new`: the new builder holds no directive and
/// describes a logger that writes to standard error.
#[verifier::external_body]
fn new_builder() -> (builder: Builder)
    ensures
        directives(builder) == Seq::<(Option<Seq<char>>, int)>::empty(),
        !writes_to_stdout(builder),
{
    Builder::new()
}

/// `env_logger::Builder::filter`: the directive replaces the one that the
/// builder holds for the same module, or is added after the others. The
/// target stays as it was.
#[verifier::external_body]
fn add_directive(builder: &mut Builder, module: Option<&str>, level: LevelFilter)
    ensures
        directives(*final(builder)) == upsert(
            directives(*old(builder)),
            (text_view(module), level.code()),
        ),
        writes_to_stdout(*final(builder)) == writes_to_stdout(*old(builder)),
{
    builder.filter(
        module,
        match level {
            LevelFilter::Off => log::LevelFilter::Off,
            LevelFilter::Error => log::LevelFilter::Error,
            LevelFilter::Warn => log::LevelFilter::Warn,
            LevelFilter::Info => log::LevelFilter::Info,
            LevelFilter::Debug => log::LevelFilter::Debug,
            LevelFilter::Trace => log::LevelFilter::Trace,
        },
    );
}

/// `env_logger::Builder::parse_filters`: each directive read out of the
/// string is taken in as `Builder::filter` takes one in. The target stays as
/// it was.
#[verifier::external_body]
fn parse_filters(builder: &mut Builder, filters: &str)
    ensures
        directives(*final(builder)) == merge(directives(*old(builder)), parsed_directives(filters@)),
        writes_to_stdout(*final(builder)) == writes_to_stdout(*old(builder)),
{
    builder.parse_filters(filters);
}

/// `env_logger::Builder::target` with `Target::Stdout`: the logger will
/// write to standard output. The directives stay as they were.
#[verifier::external_body]
fn target_stdout(builder: &mut Builder)
    ensures
        directives(*final(builder)) == directives(*old(builder)),
        writes_to_stdout(*final(builder)),
{
    builder.target(env_logger::Target::Stdout);
}

/// The directives of a logger for which neither the caller nor the
/// environment names a filter: `info` for the modules of this project, `warn`
/// for everything else.
pub open spec fn default_directives() -> Seq<(Option<Seq<char>>, int)> {
    seq![
        (Some("core"@), LevelFilter::Info.code()),
        (Some("logging"@), LevelFilter::Info.code()),
        (Some("sdk-java"@), LevelFilter::Info.code()),
        (Some("sdk-li"@), LevelFilter::Info.code()),
        (None, LevelFilter::Warn.code()),
    ]
}

/// The filter string that wins: the caller's where it is not empty, else the
/// one from the environment; `None` where the defaults apply.
pub open spec fn chosen_filters_spec(filter: Seq<char>, env_filter: Option<Seq<char>>) -> Option<
    Seq<char>,
> {
    if filter.len() > 0 {
        Some(filter)
    } else {
        env_filter
    }
}

/// The directives that a new builder holds once the winning filter has been
/// applied to it.
pub open spec fn configured_directives(filter: Seq<char>, env_filter: Option<Seq<char>>) -> Seq<
    (Option<Seq<char>>, int),
> {
    match chosen_filters_spec(filter, env_filter) {
        Some(filters) => merge(Seq::empty(), parsed_directives(filters)),
        None => default_directives(),
    }
}

/// Decides which filter string configures the logger. A filter string that the
/// caller passes wins over the one found in the environment, and that one over
/// the defaults, for which `None` stands.
pub fn chosen_filters<'a>(filter_str: &'a str, env_filter: Option<&'a str>) -> (chosen: Option<
    &'a str,
>)
    ensures
        chosen == if filter_str@.len() > 0 {
            Some(filter_str)
        } else {
            env_filter
        },
        text_view(chosen) == chosen_filters_spec(filter_str@, text_view(env_filter)),
{
    if !filter_str.is_empty() {
        Some(filter_str)
    } else {
        env_filter
    }
}

/// A directive for a module that `ds` does not speak of goes to the end.
pub proof fn lemma_upsert_other_module(
    ds: Seq<(Option<Seq<char>>, int)>,
    d: (Option<Seq<char>>, int),
)
    requires
        forall|i: int| 0 <= i < ds.len() ==> ds[i].0 != d.0,
    ensures
        upsert(ds, d) == ds.push(d),
    decreases ds.len(),
{
    if ds.len() > 0 {
        let rest = ds.drop_first();
        assert forall|i: int| 0 <= i < rest.len() implies rest[i].0 != d.0 by {
            assert(rest[i] == ds[i + 1]);
        }
        lemma_upsert_other_module(rest, d);
        assert(seq![ds[0]] + rest.push(d) =~= ds.push(d));
    } else {
        assert(seq![d] =~= ds.push(d));
    }
}

/// Upserting the default directives one after another into a builder without
/// directives leaves exactly the defaults, in their order.
pub proof fn lemma_defaults_on_empty()
    ensures
        merge(Seq::empty(), default_directives()) == default_directives(),
{
    reveal_strlit("core");
    reveal_strlit("logging");
    reveal_strlit("sdk-java");
    reveal_strlit("sdk-li");
    assert("core"@.len() == 4 && "logging"@.len() == 7 && "sdk-java"@.len() == 8
        && "sdk-li"@.len() == 6);
    let d = default_directives();
    let s0 = Seq::<(Option<Seq<char>>, int)>::empty();
    let s1 = s0.push(d[0]);
    let s2 = s1.push(d[1]);
    let s3 = s2.push(d[2]);
    let s4 = s3.push(d[3]);
    let s5 = s4.push(d[4]);
    lemma_upsert_other_module(s0, d[0]);
    lemma_upsert_other_module(s1, d[1]);
    lemma_upsert_other_module(s2, d[2]);
    lemma_upsert_other_module(s3, d[3]);
    lemma_upsert_other_module(s4, d[4]);
    reveal_with_fuel(merge, 6);
    assert(d.drop_first().drop_first().drop_first().drop_first().drop_first().len() == 0);
    assert(s5 =~= d);
}

/// Applies the winning filter to `builder`: the chosen filter string is
/// parsed into it, or, where there is none, the default directives are added.
fn apply_filters(builder: &mut Builder, filter_str: &str, env_filter: Option<&str>)
    ensures
        directives(*final(builder)) == merge(
            directives(*old(builder)),
            match chosen_filters_spec(filter_str@, text_view(env_filter)) {
                Some(filters) => parsed_directives(filters),
                None => default_directives(),
            },
        ),
        writes_to_stdout(*final(builder)) == writes_to_stdout(*old(builder)),
{
    match chosen_filters(filter_str, env_filter) {
        Some(filters) => {
            parse_filters(builder, filters);
        },
        None => {
            add_directive(builder, Some("core"), LevelFilter::Info);
            add_directive(builder, Some("logging"), LevelFilter::Info);
            add_directive(builder, Some("sdk-java"), LevelFilter::Info);
            add_directive(builder, Some("sdk-li"), LevelFilter::Info);
            add_directive(builder, None, LevelFilter::Warn);
            proof {
                reveal_with_fuel(merge, 6);
                let d = default_directives();
                assert(d.drop_first().drop_first().drop_first().drop_first().drop_first().len()
                    == 0);
            }
        },
    }
}

/// The builder of the logger that stands behind a callback: the winning
/// filter is applied, and no target is set.
pub fn logger_builder(config_str: &str, env_filter: Option<&str>) -> (builder: Builder)
    ensures
        directives(builder) == configured_directives(config_str@, text_view(env_filter)),
        !writes_to_stdout(builder),
{
    let mut builder = new_builder();
    apply_filters(&mut builder, config_str, env_filter);
    proof {
        lemma_defaults_on_empty();
    }
    builder
}

/// The builder of the logger that writes to standard output: the winning
/// filter is applied to it.
pub fn stdout_logger_builder(filter_str: &str, env_filter: Option<&str>) -> (builder: Builder)
    ensures
        directives(builder) == configured_directives(filter_str@, text_view(env_filter)),
        writes_to_stdout(builder),
{
    let mut builder = new_builder();
    target_stdout(&mut builder);
    apply_filters(&mut builder, filter_str, env_filter);
    proof {
        lemma_defaults_on_empty();
    }
    builder
}

} // verus!
