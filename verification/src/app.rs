//! The application: a snapshot of the machine with the unit in which amounts
//! of data are displayed, and what a command makes of it.

use crate::cli::{Cli, CliCommand};
use crate::cmd::{
    batch, lemma_answers_one_each, run, Command, CpuCommand, DriveCommand, Executor,
    ListCpusCommand, ListNetworksCommand, ListSensorsCommand, MemoryCommand, NetworkCommand,
    OsCommand, SensorCommand, SwapCommand,
};
use crate::escape::{unescape_delimiter, unescaped};
use crate::failure::{Failure, FailureView};
use crate::query::{lemma_query_parsed_iff, Category, Query};
use crate::snapshot::{find, first_named, names, DriveInfo, NetworkInfo, SensorInfo, SystemInfo};
use crate::template::{
    lemma_double_percent, lemma_literal_template, lemma_rendered_agree,
    lemma_repeated_spec_resolved_once, lemma_unique_specs, placeholders, rendered, specifiers,
    substitute, terminated, unique, unique_specs, FmtContext,
};
use crate::text::{join, joined, texts};
use crate::units::DataUnit;
use vstd::prelude::*;
use vstd::string::*;

verus! {

/// A snapshot of the machine and the display unit for amounts of data.
#[derive(Debug, Clone, PartialEq, Eq)]
pub struct Application {
    pub sys: SystemInfo,
    pub drives: Vec<DriveInfo>,
    pub sensors: Vec<SensorInfo>,
    pub networks: Vec<NetworkInfo>,
    pub data_unit: DataUnit,
}

impl Application {
    pub fn new(
        sys: SystemInfo,
        drives: Vec<DriveInfo>,
        sensors: Vec<SensorInfo>,
        networks: Vec<NetworkInfo>,
        data_unit: DataUnit,
    ) -> (r: Self)
        ensures
            r.sys == sys,
            r.drives == drives,
            r.sensors == sensors,
            r.networks == networks,
            r.data_unit == data_unit,
    {
        Application { sys, drives, sensors, networks, data_unit }
    }

    /// The names among which a command of `category` looks for its target, in
    /// the order of the snapshot. A category that takes no name has none.
    pub open spec fn names(&self, category: Category) -> Seq<Seq<char>> {
        match category {
            Category::Cpu => names(self.sys.cpus@),
            Category::Drive => names(self.drives@),
            Category::Sensor => names(self.sensors@),
            Category::Network => names(self.networks@),
            _ => Seq::empty(),
        }
    }

    /// Where the target of `cmd` stands in the snapshot: the first entity of
    /// the command's category that has the name which the command gives.
    pub open spec fn target(&self, cmd: &CliCommand) -> Option<int> {
        first_named(self.names(cmd.category()), cmd.target_name())
    }

    /// Whether `cmd` names an entity that the snapshot does not hold.
    pub open spec fn lacks_target(&self, cmd: &CliCommand) -> bool {
        cmd.category().takes_name() && self.target(cmd) is None
    }

    /// The executor that `cmd` is bound to, where its target is there.
    pub open spec fn bound<'a>(&'a self, cmd: &CliCommand) -> Executor<'a> {
        match cmd.category() {
            Category::Os => Executor::Os(OsCommand { app: self }),
            Category::Cpu => Executor::Cpu(
                CpuCommand { cpu: &self.sys.cpus@[self.target(cmd).unwrap()] },
            ),
            Category::Memory => Executor::Memory(
                MemoryCommand { app: self, data_unit: self.data_unit },
            ),
            Category::Swap => Executor::Swap(SwapCommand { app: self, data_unit: self.data_unit }),
            Category::Drive => Executor::Drive(
                DriveCommand {
                    drive: &self.drives@[self.target(cmd).unwrap()],
                    data_unit: self.data_unit,
                },
            ),
            Category::Sensor => Executor::Sensor(
                SensorCommand { sensor: &self.sensors@[self.target(cmd).unwrap()] },
            ),
            Category::Network => Executor::Network(
                NetworkCommand {
                    network: &self.networks@[self.target(cmd).unwrap()],
                    data_unit: self.data_unit,
                },
            ),
            Category::ListSensors => Executor::ListSensors(ListSensorsCommand { app: self }),
            Category::ListCpus => Executor::ListCpus(ListCpusCommand { app: self }),
            Category::ListNetworks => Executor::ListNetworks(ListNetworksCommand { app: self }),
        }
    }

    /// What `cmd` yields on this snapshot: the answers of its executor to its
    /// queries, in order; for a listing command the names of all the entities.
    pub open spec fn output(&self, cmd: &CliCommand) -> Seq<Seq<char>> {
        batch(&self.bound(cmd), cmd.spec_queries())
    }

    /// The text of one query of `cmd` on this snapshot.
    pub open spec fn field_text(&self, cmd: &CliCommand, q: Query) -> Seq<char> {
        self.bound(cmd).answer(q)[0]
    }

    /// What stands for each placeholder text of `specs` when a template is
    /// rendered for `cmd`: the text of the field that it names, and `%` for the
    /// empty placeholder.
    pub open spec fn context(&self, cmd: &CliCommand, specs: Seq<Seq<char>>) -> Map<
        Seq<char>,
        Seq<char>,
    > {
        Map::new(
            |k: Seq<char>| k.len() == 0 || specs.contains(k),
            |k: Seq<char>|
                if k.len() == 0 {
                    seq!['%']
                } else {
                    self.field_text(cmd, Query::parsed(cmd.category(), k).unwrap())
                },
        )
    }

    /// Why no context can be built for `cmd` and `specs`, if none can: the
    /// category has no fields, or the target is not there, or one of the
    /// placeholders names no field. The first of these that holds is reported.
    pub open spec fn context_failure(&self, cmd: &CliCommand, specs: Seq<Seq<char>>) -> Option<
        FailureView,
    > {
        if !cmd.category().has_fields() {
            Some(FailureView::UnsupportedForTemplate { category: cmd.category() })
        } else if self.lacks_target(cmd) {
            Some(
                FailureView::TargetNotFound {
                    category: cmd.category(),
                    name: cmd.target_name(),
                },
            )
        } else {
            match first_unknown(cmd.category(), specs) {
                Some(token) => Some(
                    FailureView::UnknownField { category: cmd.category(), token },
                ),
                None => None,
            }
        }
    }

    /// What formatting the template `t` for `cmd` yields on this snapshot.
    pub open spec fn formatted(&self, cmd: &CliCommand, t: Seq<char>) -> Result<
        Seq<char>,
        FailureView,
    > {
        if !terminated(t) {
            Err(FailureView::UnterminatedPlaceholder)
        } else {
            match self.context_failure(cmd, placeholders(t)) {
                Some(e) => Err(e),
                None => Ok(rendered(t, self.context(cmd, placeholders(t)))),
            }
        }
    }

    /// Binds `cli_cmd` to its target in the snapshot and hands back the
    /// executor with the queries of the command. A command that names an
    /// entity finds the first one of that name, or fails where there is none.
    pub fn command_from_cli<'a>(&'a self, cli_cmd: &CliCommand) -> (r: Result<
        (Executor<'a>, Vec<Query>),
        Failure,
    >)
        ensures
            match r {
                Ok((executor, queries)) => {
                    &&& !self.lacks_target(cli_cmd)
                    &&& executor == self.bound(cli_cmd)
                    &&& queries@ == cli_cmd.spec_queries()
                },
                Err(e) => {
                    &&& self.lacks_target(cli_cmd)
                    &&& e@ == (FailureView::TargetNotFound {
                        category: cli_cmd.category(),
                        name: cli_cmd.target_name(),
                    })
                },
            },
    {
        let queries = cli_cmd.queries();
        match cli_cmd {
            CliCommand::Os { .. } => Ok((Executor::Os(OsCommand::new(self)), queries)),
            CliCommand::Cpu { name, .. } => match find(&self.sys.cpus, name) {
                Some(i) => Ok((Executor::Cpu(CpuCommand::new(&self.sys.cpus[i])), queries)),
                None => Err(
                    Failure::TargetNotFound { category: Category::Cpu, name: name.clone() },
                ),
            },
            CliCommand::Memory { .. } => Ok(
                (Executor::Memory(MemoryCommand::new(self, self.data_unit)), queries),
            ),
            CliCommand::Swap { .. } => Ok(
                (Executor::Swap(SwapCommand::new(self, self.data_unit)), queries),
            ),
            CliCommand::Drive { name, .. } => match find(&self.drives, name) {
                Some(i) => Ok(
                    (
                        Executor::Drive(DriveCommand::new(&self.drives[i], self.data_unit)),
                        queries,
                    ),
                ),
                None => Err(
                    Failure::TargetNotFound { category: Category::Drive, name: name.clone() },
                ),
            },
            CliCommand::Sensor { name, .. } => match find(&self.sensors, name) {
                Some(i) => Ok((Executor::Sensor(SensorCommand::new(&self.sensors[i])), queries)),
                None => Err(
                    Failure::TargetNotFound { category: Category::Sensor, name: name.clone() },
                ),
            },
            CliCommand::Network { name, .. } => match find(&self.networks, name) {
                Some(i) => Ok(
                    (
                        Executor::Network(NetworkCommand::new(&self.networks[i], self.data_unit)),
                        queries,
                    ),
                ),
                None => Err(
                    Failure::TargetNotFound { category: Category::Network, name: name.clone() },
                ),
            },
            CliCommand::ListSensors => Ok(
                (Executor::ListSensors(ListSensorsCommand::new(self)), queries),
            ),
            CliCommand::ListCpus => Ok((Executor::ListCpus(ListCpusCommand::new(self)), queries)),
            CliCommand::ListNetworks => Ok(
                (Executor::ListNetworks(ListNetworksCommand::new(self)), queries),
            ),
        }
    }

    /// Builds the context for the placeholder texts `specs` of a template:
    /// binds `cli_cmd` once, parses each text that is not empty once, in the
    /// order of first occurrence, and answers all of the queries in one run.
    pub fn create_fmt_ctx(&self, cli_cmd: &CliCommand, specs: Vec<String>) -> (r: Result<
        FmtContext,
        Failure,
    >)
        ensures
            match r {
                Ok(ctx) => {
                    &&& self.context_failure(cli_cmd, texts(specs@)) is None
                    &&& ctx@ == self.context(cli_cmd, texts(specs@))
                },
                Err(e) => self.context_failure(cli_cmd, texts(specs@)) == Some(e@),
            },
    {
        let category = cli_cmd.category();
        if !category.has_fields() {
            return Err(Failure::UnsupportedForTemplate { category });
        }
        let mut cmd = match self.command_from_cli(cli_cmd) {
            Ok((executor, _)) => executor,
            Err(e) => {
                return Err(e);
            },
        };
        let (keys, queries) = match resolve(cli_cmd, &specs) {
            Ok(resolved) => resolved,
            Err(e) => {
                return Err(e);
            },
        };
        let ghost executor = cmd;
        proof {
            lemma_bound_accepts(self, cli_cmd, Query::Nothing);
            assert forall|j: int| 0 <= j < queries.len() implies cmd.accepts(
                #[trigger] queries[j],
            ) && cmd.answer(queries[j]).len() == 1 by {
                lemma_resolved_known(category, texts(specs@), j);
                lemma_query_parsed_iff(category, texts(keys@)[j], queries@[j]);
                lemma_bound_accepts(self, cli_cmd, queries@[j]);
            }
            lemma_answers_one_each(&cmd, queries@);
        }
        let values = run(&mut cmd, &queries);
        let mut ctx = FmtContext::new();
        let mut i: usize = 0;
        proof {
            assert(texts(values@) == batch(&executor, queries@));
            assert(texts(values@).len() == values.len());
            lemma_context_of_none(self, cli_cmd);
        }
        while i < keys.len()
            invariant
                i <= keys.len(),
                keys.len() == values.len(),
                texts(keys@) == unique_specs(texts(specs@)),
                first_unknown(cli_cmd.category(), texts(specs@)) is None,
                forall|j: int|
                    0 <= j < keys.len() ==> #[trigger] texts(values@)[j] == self.field_text(
                        cli_cmd,
                        resolved(cli_cmd.category(), texts(specs@))[j],
                    ),
                ctx@ == self.context(cli_cmd, texts(keys@).take(i as int)),
            decreases keys.len() - i,
        {
            ctx.insert(keys[i].clone(), values[i].clone());
            proof {
                assert(texts(values@)[i as int] == values@[i as int]@);
                lemma_resolved_known(cli_cmd.category(), texts(specs@), i as int);
                lemma_context_grows(self, cli_cmd, texts(keys@), i as int);
            }
            i += 1;
        }
        proof {
            assert(texts(keys@).take(keys.len() as int) =~= texts(keys@));
            lemma_context_of_unique(self, cli_cmd, texts(specs@));
        }
        Ok(ctx)
    }

    /// Formats the template `fmt` for `cmd`: every placeholder is replaced by
    /// the text of the field that it names, `%%` by `%`, and the rest is
    /// copied. It yields the whole text or a failure, never a part.
    pub fn format_string(&self, cmd: &CliCommand, fmt: &str) -> (r: Result<String, Failure>)
        ensures
            result_view(r) == self.formatted(cmd, fmt@),
    {
        let specs = match specifiers(fmt) {
            Ok(specs) => specs,
            Err(e) => {
                return Err(e);
            },
        };
        let fmt_ctx = match self.create_fmt_ctx(cmd, specs) {
            Ok(ctx) => ctx,
            Err(e) => {
                return Err(e);
            },
        };
        proof {
            assert forall|i: int| 0 <= i < placeholders(fmt@).len() implies fmt_ctx@.contains_key(
                #[trigger] placeholders(fmt@)[i],
            ) by {}
        }
        Ok(substitute(fmt, &fmt_ctx))
    }

    /// What is printed for `cmd`: the formatted template on a line, where
    /// there is a template; else the texts of the command's fields with
    /// `delimiter` between them and a line break at the end, or nothing at
    /// all where the command yields no text.
    pub open spec fn composed(
        &self,
        cmd: &CliCommand,
        fmt: Option<Seq<char>>,
        delimiter: Seq<char>,
    ) -> Result<Seq<char>, FailureView> {
        match fmt {
            Some(t) => match self.formatted(cmd, t) {
                Ok(s) => Ok(s + seq!['\n']),
                Err(e) => Err(e),
            },
            None => if self.lacks_target(cmd) {
                Err(
                    FailureView::TargetNotFound {
                        category: cmd.category(),
                        name: cmd.target_name(),
                    },
                )
            } else {
                Ok(lines(self.output(cmd), delimiter))
            },
        }
    }

    /// What is printed for `cli`. The escape sequences of the delimiter are
    /// read first, so a delimiter that cannot be read fails before anything
    /// else is looked at.
    pub open spec fn executed(&self, cli: &Cli) -> Result<Seq<char>, FailureView> {
        match unescaped(cli.delimiter@) {
            Some(delimiter) => self.composed(&cli.cmd, text_of(cli.fmt), delimiter),
            None => Err(FailureView::InvalidDelimiter),
        }
    }

    /// Composes what is to be printed for `cmd`, with `delimiter` taken as it
    /// is.
    pub fn compose(&self, cmd: &CliCommand, fmt: Option<&str>, delimiter: &str) -> (r: Result<
        String,
        Failure,
    >)
        ensures
            result_view(r) == self.composed(
                cmd,
                match fmt {
                    Some(t) => Some(t@),
                    None => None,
                },
                delimiter@,
            ),
    {
        proof {
            reveal_strlit("\n");
        }
        match fmt {
            Some(t) => match self.format_string(cmd, t) {
                Ok(mut s) => {
                    s.append("\n");
                    assert(s@ =~= self.formatted(cmd, t@)->Ok_0 + seq!['\n']);
                    Ok(s)
                },
                Err(e) => Err(e),
            },
            None => match cmd.exec(self) {
                Ok(data) => {
                    if data.len() == 0 {
                        Ok(String::new())
                    } else {
                        let mut s = join(&data, delimiter);
                        s.append("\n");
                        assert(s@ =~= joined(texts(data@), delimiter@) + seq!['\n']);
                        Ok(s)
                    }
                },
                Err(e) => Err(e),
            },
        }
    }

    /// Composes what is to be printed for `cli`, from the delimiter as it was
    /// written on the command line.
    pub fn exec_cmd(&self, cli: &Cli) -> (r: Result<String, Failure>)
        ensures
            result_view(r) == self.executed(cli),
            !cli.delimiter@.contains('\\') ==> result_view(r) == self.composed(
                &cli.cmd,
                text_of(cli.fmt),
                cli.delimiter@,
            ),
    {
        let delimiter = match unescape_delimiter(cli.delimiter.as_str()) {
            Ok(d) => d,
            Err(e) => {
                return Err(e);
            },
        };
        match &cli.fmt {
            Some(fmt) => self.compose(&cli.cmd, Some(fmt.as_str()), delimiter.as_str()),
            None => self.compose(&cli.cmd, None, delimiter.as_str()),
        }
    }
}

/// The result of a command with its strings taken as texts.
pub open spec fn result_view(r: Result<String, Failure>) -> Result<Seq<char>, FailureView> {
    match r {
        Ok(s) => Ok(s@),
        Err(e) => Err(e@),
    }
}

/// The text of an optional string.
pub open spec fn text_of(s: Option<String>) -> Option<Seq<char>> {
    match s {
        Some(t) => Some(t@),
        None => None,
    }
}

/// The texts `data` as they are printed: `delimiter` between them and a line
/// break after the last; nothing where there is no text.
pub open spec fn lines(data: Seq<Seq<char>>, delimiter: Seq<char>) -> Seq<char> {
    if data.len() == 0 {
        Seq::empty()
    } else {
        joined(data, delimiter) + seq!['\n']
    }
}

/// The queries that one run answers for the placeholder texts `specs`: one
/// for each text that is not empty, in the order in which the texts first
/// occur, however often a text is repeated.
pub open spec fn resolved(category: Category, specs: Seq<Seq<char>>) -> Seq<Query> {
    Seq::new(
        unique_specs(specs).len(),
        |i: int| Query::parsed(category, unique_specs(specs)[i]).unwrap(),
    )
}

/// Resolves the placeholder texts of a template for `cli_cmd`: hands back the
/// texts that are not empty, each once, with the query that each names. It
/// fails on the first text that names no field.
pub fn resolve(cli_cmd: &CliCommand, specs: &Vec<String>) -> (r: Result<
    (Vec<String>, Vec<Query>),
    Failure,
>)
    ensures
        match r {
            Ok((keys, queries)) => {
                &&& first_unknown(cli_cmd.category(), texts(specs@)) is None
                &&& texts(keys@) == unique_specs(texts(specs@))
                &&& queries@ == resolved(cli_cmd.category(), texts(specs@))
            },
            Err(e) => {
                &&& first_unknown(cli_cmd.category(), texts(specs@)) matches Some(k)
                &&& e@ == Query::refusal(cli_cmd.category(), k)
            },
        },
{
    let category = cli_cmd.category();
    let keys = unique(specs);
    proof {
        lemma_first_unknown_unique(category, texts(specs@));
        lemma_unique_specs(texts(specs@));
        assert forall|j: int| 0 <= j < keys.len() implies (#[trigger] texts(keys@)[j]).len()
            > 0 by {
            assert(texts(keys@).contains(texts(keys@)[j]));
        }
    }
    let mut queries: Vec<Query> = Vec::new();
    let mut i: usize = 0;
    while i < keys.len()
        invariant
            i <= keys.len(),
            category == cli_cmd.category(),
            queries.len() == i,
            first_unknown(category, texts(keys@)) == first_unknown(category, texts(specs@)),
            forall|j: int| 0 <= j < keys.len() ==> (#[trigger] texts(keys@)[j]).len() > 0,
            forall|j: int|
                0 <= j < i ==> Query::parsed(category, #[trigger] texts(keys@)[j]) == Some(
                    queries@[j],
                ),
        decreases keys.len() - i,
    {
        match Query::from_str(cli_cmd, keys[i].as_str()) {
            Ok(q) => queries.push(q),
            Err(e) => {
                proof {
                    lemma_first_unknown_at(category, texts(keys@), i as int);
                }
                return Err(e);
            },
        }
        i += 1;
    }
    proof {
        lemma_first_unknown_none(category, texts(keys@));
    }
    Ok((keys, queries))
}

/// A placeholder that a template repeats is resolved once: the run answers
/// one query for it, as it does for a template that holds it once.
pub proof fn lemma_repetition_resolved_once(category: Category, x: Seq<char>, n: nat)
    requires
        x.len() > 0,
        n >= 1,
    ensures
        resolved(category, Seq::new(n, |i: int| x)) == resolved(category, seq![x]),
        resolved(category, Seq::new(n, |i: int| x)).len() == 1,
{
    lemma_repeated_spec_resolved_once(x, n);
    lemma_repeated_spec_resolved_once(x, 1);
    assert(Seq::new(1, |i: int| x) =~= seq![x]);
}

/// One run answers no more queries than the template has placeholders, and
/// it answers for no placeholder text twice.
pub proof fn lemma_resolved_each_once(category: Category, specs: Seq<Seq<char>>)
    ensures
        resolved(category, specs).len() == unique_specs(specs).len(),
        resolved(category, specs).len() <= specs.len(),
        unique_specs(specs).no_duplicates(),
{
    lemma_unique_specs(specs);
}

/// Whether `k` is the text of a placeholder that names no field of `category`.
/// The empty placeholder names none and is known all the same: it stands for `%`.
pub open spec fn is_unknown(category: Category, k: Seq<char>) -> bool {
    k.len() > 0 && Query::parsed(category, k) is None
}

/// The first text of `specs` that names no field of `category`, if there is one.
pub open spec fn first_unknown(category: Category, specs: Seq<Seq<char>>) -> Option<Seq<char>>
    decreases specs.len(),
{
    if specs.len() == 0 {
        None
    } else {
        match first_unknown(category, specs.drop_last()) {
            Some(k) => Some(k),
            None => if is_unknown(category, specs.last()) {
                Some(specs.last())
            } else {
                None
            },
        }
    }
}

/// Where every text names a field, there is no first one that does not.
pub proof fn lemma_first_unknown_none(category: Category, specs: Seq<Seq<char>>)
    ensures
        first_unknown(category, specs) is None <==> forall|j: int|
            0 <= j < specs.len() ==> !is_unknown(category, #[trigger] specs[j]),
    decreases specs.len(),
{
    if specs.len() > 0 {
        let init = specs.drop_last();
        lemma_first_unknown_none(category, init);
        if first_unknown(category, specs) is None {
            assert forall|j: int| 0 <= j < specs.len() implies !is_unknown(
                category,
                #[trigger] specs[j],
            ) by {
                if j < init.len() {
                    assert(init[j] == specs[j]);
                }
            }
        } else if first_unknown(category, init) is Some {
            let j = choose|j: int| 0 <= j < init.len() && is_unknown(category, #[trigger] init[j]);
            assert(init[j] == specs[j]);
        }
    }
}

/// The text before which every text names a field, and which names none
/// itself, is the first unknown one.
pub proof fn lemma_first_unknown_at(category: Category, specs: Seq<Seq<char>>, i: int)
    requires
        0 <= i < specs.len(),
        is_unknown(category, specs[i]),
        forall|j: int| 0 <= j < i ==> !is_unknown(category, #[trigger] specs[j]),
    ensures
        first_unknown(category, specs) == Some(specs[i]),
    decreases specs.len(),
{
    let init = specs.drop_last();
    if i == specs.len() - 1 {
        lemma_first_unknown_none(category, init);
        assert forall|j: int| 0 <= j < init.len() implies !is_unknown(
            category,
            #[trigger] init[j],
        ) by {
            assert(init[j] == specs[j]);
        }
    } else {
        assert(init[i] == specs[i]);
        assert forall|j: int| 0 <= j < i implies !is_unknown(category, #[trigger] init[j]) by {
            assert(init[j] == specs[j]);
        }
        lemma_first_unknown_at(category, init, i);
    }
}

/// Leaving out the empty texts and the repetitions does not change which
/// text is the first that names no field.
pub proof fn lemma_first_unknown_unique(category: Category, specs: Seq<Seq<char>>)
    ensures
        first_unknown(category, unique_specs(specs)) == first_unknown(category, specs),
    decreases specs.len(),
{
    if specs.len() > 0 {
        let init = specs.drop_last();
        let s = specs.last();
        let before = unique_specs(init);
        lemma_first_unknown_unique(category, init);
        lemma_unique_specs(init);
        if s.len() == 0 || before.contains(s) {
            if first_unknown(category, init) is None && s.len() > 0 {
                lemma_first_unknown_none(category, init);
                assert(init.contains(s));
                let j = choose|j: int| 0 <= j < init.len() && init[j] == s;
                assert(!is_unknown(category, init[j]));
            }
        } else {
            assert(before.push(s).drop_last() =~= before);
        }
    }
}

/// Where every text of `specs` names a field, the query at position `j` of
/// the run is the one that the text at position `j` of the unique texts names.
pub proof fn lemma_resolved_known(category: Category, specs: Seq<Seq<char>>, j: int)
    requires
        first_unknown(category, specs) is None,
        0 <= j < unique_specs(specs).len(),
    ensures
        unique_specs(specs)[j].len() > 0,
        Query::parsed(category, unique_specs(specs)[j]) == Some(resolved(category, specs)[j]),
{
    let keys = unique_specs(specs);
    lemma_unique_specs(specs);
    lemma_first_unknown_unique(category, specs);
    lemma_first_unknown_none(category, keys);
    assert(keys.contains(keys[j]));
    assert(!is_unknown(category, keys[j]));
}

/// Without placeholders the context holds the `%` for the empty placeholder
/// and nothing else.
pub proof fn lemma_context_of_none(app: &Application, cmd: &CliCommand)
    ensures
        app.context(cmd, Seq::empty()) == Map::<Seq<char>, Seq<char>>::empty().insert(
            Seq::empty(),
            seq!['%'],
        ),
{
    let ctx = app.context(cmd, Seq::empty());
    let seed = Map::<Seq<char>, Seq<char>>::empty().insert(Seq::empty(), seq!['%']);
    assert forall|k: Seq<char>| ctx.contains_key(k) <==> seed.contains_key(k) by {
        if k.len() == 0 {
            assert(k =~= Seq::<char>::empty());
        }
    }
    assert(ctx =~= seed);
}

/// The context of the first `i + 1` texts is the context of the first `i`
/// with what stands for the next text put in.
pub proof fn lemma_context_grows(
    app: &Application,
    cmd: &CliCommand,
    keys: Seq<Seq<char>>,
    i: int,
)
    requires
        0 <= i < keys.len(),
        keys[i].len() > 0,
    ensures
        app.context(cmd, keys.take(i + 1)) == app.context(cmd, keys.take(i)).insert(
            keys[i],
            app.field_text(cmd, Query::parsed(cmd.category(), keys[i]).unwrap()),
        ),
{
    let before = app.context(cmd, keys.take(i));
    let after = app.context(cmd, keys.take(i + 1));
    let value = app.field_text(cmd, Query::parsed(cmd.category(), keys[i]).unwrap());
    assert(keys.take(i + 1) =~= keys.take(i).push(keys[i]));
    assert forall|k: Seq<char>| after.contains_key(k) <==> before.insert(
        keys[i],
        value,
    ).contains_key(k) by {
        if keys.take(i).contains(k) {
            let j = choose|j: int| 0 <= j < i && keys.take(i)[j] == k;
            assert(keys.take(i + 1)[j] == k);
        }
        assert(keys.take(i + 1)[i] == keys[i]);
    }
    assert(after =~= before.insert(keys[i], value));
}

/// Empty texts and repetitions among the placeholders do not change the
/// context.
pub proof fn lemma_context_of_unique(app: &Application, cmd: &CliCommand, specs: Seq<Seq<char>>)
    ensures
        app.context(cmd, unique_specs(specs)) == app.context(cmd, specs),
{
    lemma_unique_specs(specs);
    assert(app.context(cmd, unique_specs(specs)) =~= app.context(cmd, specs));
}

/// The executor of a command answers every field of the command's category
/// with one text, and `Query::Nothing` with none or, for a listing, with names.
pub proof fn lemma_bound_accepts(app: &Application, cmd: &CliCommand, q: Query)
    requires
        q is Nothing || q.category() == Some(cmd.category()),
    ensures
        app.bound(cmd).accepts(q),
        q !is Nothing ==> app.bound(cmd).answer(q).len() == 1,
        q is Nothing && cmd.category().has_fields() ==> app.bound(cmd).answer(q).len() == 0,
{
}

/// A command with fields yields one text for each field that it asks for, in
/// the order in which it asks.
pub proof fn lemma_output_matches_queries(app: &Application, cmd: &CliCommand)
    requires
        cmd.category().has_fields(),
    ensures
        app.output(cmd).len() == cmd.spec_queries().len(),
        forall|i: int|
            0 <= i < cmd.spec_queries().len() ==> app.output(cmd)[i] == app.field_text(
                cmd,
                #[trigger] cmd.spec_queries()[i],
            ),
{
    let queries = cmd.spec_queries();
    let executor = app.bound(cmd);
    assert forall|i: int| 0 <= i < queries.len() implies (#[trigger] executor.answer(
        queries[i],
    )).len() == 1 by {
        cmd.lemma_queries_in_category(i);
        lemma_bound_accepts(app, cmd, queries[i]);
    }
    lemma_answers_one_each(&executor, queries);
    lemma_bound_accepts(app, cmd, Query::Nothing);
}

/// A template without `%` comes back as it is, whatever the snapshot holds,
/// for every command that has fields and finds its target.
pub proof fn lemma_literal_round_trip(app: &Application, cmd: &CliCommand, t: Seq<char>)
    requires
        !t.contains('%'),
        cmd.category().has_fields(),
        !app.lacks_target(cmd),
    ensures
        app.formatted(cmd, t) == Ok::<Seq<char>, FailureView>(t),
{
    lemma_literal_template(t, app.context(cmd, placeholders(t)));
}

/// Formatting reads the snapshot and changes nothing: what two calls with
/// one snapshot, one command and one template hand back is the same.
pub proof fn lemma_formatting_repeats(
    app: &Application,
    cmd: &CliCommand,
    t: Seq<char>,
    first: Result<String, Failure>,
    second: Result<String, Failure>,
)
    requires
        result_view(first) == app.formatted(cmd, t),
        result_view(second) == app.formatted(cmd, t),
    ensures
        result_view(first) == result_view(second),
{
}

/// The first text that names no field among `a` followed by `b` is the first
/// such text of `a`, or else the first such text of `b`.
pub proof fn lemma_first_unknown_concat(category: Category, a: Seq<Seq<char>>, b: Seq<Seq<char>>)
    ensures
        first_unknown(category, a + b) == match first_unknown(category, a) {
            Some(k) => Some(k),
            None => first_unknown(category, b),
        },
    decreases b.len(),
{
    if b.len() == 0 {
        assert(a + b =~= a);
    } else {
        assert((a + b).drop_last() =~= a + b.drop_last());
        lemma_first_unknown_concat(category, a, b.drop_last());
    }
}

/// After a terminated template, `%%` stands for one `%`, whatever comes
/// before it and after it: where `a` and `b` can be formatted, so can `a`,
/// `%%`, `b` in a row, and the result is what `a` gives, then `%`, then what
/// `b` gives.
pub proof fn lemma_percent_escape(app: &Application, cmd: &CliCommand, a: Seq<char>, b: Seq<char>)
    requires
        app.formatted(cmd, a) is Ok,
        app.formatted(cmd, b) is Ok,
    ensures
        app.formatted(cmd, a + seq!['%', '%'] + b) == Ok::<Seq<char>, FailureView>(
            app.formatted(cmd, a)->Ok_0 + seq!['%'] + app.formatted(cmd, b)->Ok_0,
        ),
{
    let empty = Seq::<char>::empty();
    let t = a + seq!['%', '%'] + b;
    let category = cmd.category();
    let (pa, pb, pt) = (placeholders(a), placeholders(b), placeholders(t));
    let (ca, cb, ct) = (app.context(cmd, pa), app.context(cmd, pb), app.context(cmd, pt));
    lemma_double_percent(a, b, ct);
    assert(first_unknown(category, pt) is None) by {
        lemma_first_unknown_concat(category, pa + seq![empty], pb);
        lemma_first_unknown_concat(category, pa, seq![empty]);
        lemma_first_unknown_none(category, seq![empty]);
    }
    assert forall|i: int| 0 <= i < pa.len() implies ct[#[trigger] pa[i]] == ca[pa[i]] by {
        assert(pt[i] == pa[i]);
    }
    assert forall|i: int| 0 <= i < pb.len() implies ct[#[trigger] pb[i]] == cb[pb[i]] by {
        assert(pt[pa.len() + 1 + i] == pb[i]);
    }
    lemma_rendered_agree(a, ct, ca);
    lemma_rendered_agree(b, ct, cb);
}

/// A command that names no entity is bound whatever the snapshot holds: the
/// system, the memory, the swap memory and the three listings are always there.
pub proof fn lemma_unnamed_always_bound(app: &Application, cmd: &CliCommand)
    requires
        !cmd.category().takes_name(),
    ensures
        !app.lacks_target(cmd),
{
}

} // verus!
