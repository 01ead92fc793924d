//! Build files (`FROM`, `RUN`, `COPY`, `CMD`) and the layer cache of builds.

use vstd::prelude::*;
use vstd::string::*;

use crate::digest::{content_digest, content_digest_text, lemma_hex_lower_len, sha256_of};
use crate::error::{ErrorView, GrinddError};
use crate::keyed::KeyedVec;
use crate::paths::{join, path_join};
use crate::text::{
    chars_of, concat, decimal, decimal_string, has_prefix, lemma_run_len_at, not_newline,
    split_lines, split_words, substring, trim, trim_str, views, words,
};

verus! {

/// One instruction of a build file.
#[derive(Debug, Clone)]
pub enum BuildInstruction {
    From(String),
    Run(String),
    Copy { src: String, dst: String },
    Cmd(Vec<String>),
}

/// The model of a `BuildInstruction`.
pub enum InstructionView {
    From(Seq<char>),
    Run(Seq<char>),
    Copy { src: Seq<char>, dst: Seq<char> },
    Cmd(Seq<Seq<char>>),
}

impl View for BuildInstruction {
    type V = InstructionView;

    open spec fn view(&self) -> InstructionView {
        match self {
            BuildInstruction::From(x) => InstructionView::From(x@),
            BuildInstruction::Run(x) => InstructionView::Run(x@),
            BuildInstruction::Copy { src, dst } => InstructionView::Copy { src: src@, dst: dst@ },
            BuildInstruction::Cmd(args) => InstructionView::Cmd(views(args@)),
        }
    }
}

/// The instructions of a build file, in order.
#[derive(Debug, Clone)]
pub struct BuildPlan {
    pub instructions: Vec<BuildInstruction>,
}

pub open spec fn instruction_views(v: Seq<BuildInstruction>) -> Seq<InstructionView> {
    v.map_values(|i: BuildInstruction| i@)
}

impl View for BuildPlan {
    type V = Seq<InstructionView>;

    open spec fn view(&self) -> Seq<InstructionView> {
        instruction_views(self.instructions@)
    }
}

pub open spec fn kw_from() -> Seq<char> {
    seq!['F', 'R', 'O', 'M', ' ']
}

pub open spec fn kw_run() -> Seq<char> {
    seq!['R', 'U', 'N', ' ']
}

pub open spec fn kw_copy() -> Seq<char> {
    seq!['C', 'O', 'P', 'Y', ' ']
}

pub open spec fn kw_cmd() -> Seq<char> {
    seq!['C', 'M', 'D', ' ']
}

/// What one trimmed line of a build file says: nothing (`Ok(None)`) for a
/// blank line or a `#` comment, an instruction, or why the line is refused.
pub open spec fn parse_line(line: Seq<char>) -> Result<Option<InstructionView>, ErrorView> {
    if line.len() == 0 || line[0] == '#' {
        Ok(None)
    } else if has_prefix(line, kw_from()) {
        Ok(Some(InstructionView::From(trim(line.skip(5)))))
    } else if has_prefix(line, kw_run()) {
        Ok(Some(InstructionView::Run(trim(line.skip(4)))))
    } else if has_prefix(line, kw_copy()) {
        let parts = words(line.skip(5));
        if parts.len() == 2 {
            Ok(Some(InstructionView::Copy { src: parts[0], dst: parts[1] }))
        } else {
            Err(ErrorView::Build("invalid COPY line: "@ + line))
        }
    } else if has_prefix(line, kw_cmd()) {
        Ok(Some(InstructionView::Cmd(words(line.skip(4)))))
    } else {
        Err(ErrorView::Build("unknown instruction: "@ + line))
    }
}

/// The instructions of the given lines, each trimmed first; the first refused
/// line decides the error.
pub open spec fn parse_lines(lines: Seq<Seq<char>>) -> Result<Seq<InstructionView>, ErrorView>
    decreases lines.len(),
{
    if lines.len() == 0 {
        Ok(seq![])
    } else {
        match parse_line(trim(lines[0])) {
            Err(e) => Err(e),
            Ok(first) => match parse_lines(lines.drop_first()) {
                Err(e) => Err(e),
                Ok(rest) => Ok(
                    match first {
                        Some(i) => seq![i] + rest,
                        None => rest,
                    },
                ),
            },
        }
    }
}

/// The plan that a build file with the text `content` describes.
pub open spec fn parse_build_text(content: Seq<char>) -> Result<Seq<InstructionView>, ErrorView> {
    parse_lines(split_lines(content))
}

pub open spec fn plan_result_view(r: Result<BuildPlan, GrinddError>) -> Result<
    Seq<InstructionView>,
    ErrorView,
> {
    match r {
        Ok(p) => Ok(p@),
        Err(e) => Err(e@),
    }
}

spec fn prepend(acc: Seq<InstructionView>, r: Result<Seq<InstructionView>, ErrorView>) -> Result<
    Seq<InstructionView>,
    ErrorView,
> {
    match r {
        Ok(rest) => Ok(acc + rest),
        Err(e) => Err(e),
    }
}

fn has_kw_from(cs: &Vec<char>) -> (b: bool)
    ensures
        b == has_prefix(cs@, kw_from()),
{
    let b = cs.len() >= 5 && cs[0] == 'F' && cs[1] == 'R' && cs[2] == 'O' && cs[3] == 'M'
        && cs[4] == ' ';
    proof {
        if cs@.len() >= 5 {
            if b {
                assert(cs@.take(5) =~= kw_from());
            } else {
                assert(cs@.take(5) != kw_from()) by {
                    let t = cs@.take(5);
                    assert(t[0] == cs@[0] && t[1] == cs@[1] && t[2] == cs@[2] && t[3] == cs@[3]
                        && t[4] == cs@[4]);
                }
            }
        }
    }
    b
}

fn has_kw_run(cs: &Vec<char>) -> (b: bool)
    ensures
        b == has_prefix(cs@, kw_run()),
{
    let b = cs.len() >= 4 && cs[0] == 'R' && cs[1] == 'U' && cs[2] == 'N' && cs[3] == ' ';
    proof {
        if cs@.len() >= 4 {
            if b {
                assert(cs@.take(4) =~= kw_run());
            } else {
                assert(cs@.take(4) != kw_run()) by {
                    let t = cs@.take(4);
                    assert(t[0] == cs@[0] && t[1] == cs@[1] && t[2] == cs@[2] && t[3] == cs@[3]);
                }
            }
        }
    }
    b
}

fn has_kw_copy(cs: &Vec<char>) -> (b: bool)
    ensures
        b == has_prefix(cs@, kw_copy()),
{
    let b = cs.len() >= 5 && cs[0] == 'C' && cs[1] == 'O' && cs[2] == 'P' && cs[3] == 'Y'
        && cs[4] == ' ';
    proof {
        if cs@.len() >= 5 {
            if b {
                assert(cs@.take(5) =~= kw_copy());
            } else {
                assert(cs@.take(5) != kw_copy()) by {
                    let t = cs@.take(5);
                    assert(t[0] == cs@[0] && t[1] == cs@[1] && t[2] == cs@[2] && t[3] == cs@[3]
                        && t[4] == cs@[4]);
                }
            }
        }
    }
    b
}

fn has_kw_cmd(cs: &Vec<char>) -> (b: bool)
    ensures
        b == has_prefix(cs@, kw_cmd()),
{
    let b = cs.len() >= 4 && cs[0] == 'C' && cs[1] == 'M' && cs[2] == 'D' && cs[3] == ' ';
    proof {
        if cs@.len() >= 4 {
            if b {
                assert(cs@.take(4) =~= kw_cmd());
            } else {
                assert(cs@.take(4) != kw_cmd()) by {
                    let t = cs@.take(4);
                    assert(t[0] == cs@[0] && t[1] == cs@[1] && t[2] == cs@[2] && t[3] == cs@[3]);
                }
            }
        }
    }
    b
}

/// Reads one trimmed line of a build file.
pub fn parse_build_line(line: &str) -> (r: Result<Option<BuildInstruction>, GrinddError>)
    ensures
        match r {
            Ok(None) => parse_line(line@) == Ok::<Option<InstructionView>, ErrorView>(None),
            Ok(Some(i)) => parse_line(line@) == Ok::<Option<InstructionView>, ErrorView>(
                Some(i@),
            ),
            Err(e) => parse_line(line@) == Err::<Option<InstructionView>, ErrorView>(e@),
        },
{
    let cs = chars_of(line);
    let n = cs.len();
    if n == 0 || cs[0] == '#' {
        return Ok(None);
    }
    if has_kw_from(&cs) {
        let rest = substring(line, 5, n);
        assert(rest@ =~= line@.skip(5));
        return Ok(Some(BuildInstruction::From(trim_str(rest.as_str()))));
    }
    if has_kw_run(&cs) {
        let rest = substring(line, 4, n);
        assert(rest@ =~= line@.skip(4));
        return Ok(Some(BuildInstruction::Run(trim_str(rest.as_str()))));
    }
    if has_kw_copy(&cs) {
        let rest = substring(line, 5, n);
        assert(rest@ =~= line@.skip(5));
        let parts = split_words(rest.as_str());
        if parts.len() != 2 {
            return Err(GrinddError::Build(concat("invalid COPY line: ", line)));
        }
        let src = parts[0].clone();
        let dst = parts[1].clone();
        assert(views(parts@)[0] == parts@[0]@);
        assert(views(parts@)[1] == parts@[1]@);
        return Ok(Some(BuildInstruction::Copy { src, dst }));
    }
    if has_kw_cmd(&cs) {
        let rest = substring(line, 4, n);
        assert(rest@ =~= line@.skip(4));
        return Ok(Some(BuildInstruction::Cmd(split_words(rest.as_str()))));
    }
    Err(GrinddError::Build(concat("unknown instruction: ", line)))
}

/// The line structure seen from `start`: the first piece runs to `end`.
proof fn lemma_split_lines_step(cs: Seq<char>, start: int, end: int)
    requires
        0 <= start <= end <= cs.len(),
        forall|k: int| start <= k < end ==> not_newline(#[trigger] cs[k]),
        end == cs.len() || !not_newline(cs[end]),
    ensures
        end == cs.len() ==> split_lines(cs.skip(start)) == seq![cs.subrange(start, end)],
        end < cs.len() ==> split_lines(cs.skip(start)) == seq![cs.subrange(start, end)]
            + split_lines(cs.skip(end + 1)),
{
    let p = |c: char| not_newline(c);
    lemma_run_len_at(cs, p, start, end);
    let s = cs.skip(start);
    assert(s.take(end - start) =~= cs.subrange(start, end));
    if end < cs.len() {
        assert(s.skip(end - start + 1) =~= cs.skip(end + 1));
    } else {
        assert(s =~= cs.subrange(start, end));
    }
}

/// Reads a build file given as text (the file itself is read by the caller).
/// Lines are separated by line feeds and trimmed; blank lines and lines that
/// start with `#` are skipped. `FROM x` and `RUN x` take the rest of the line,
/// trimmed; `COPY` takes exactly two whitespace-separated words; `CMD` takes
/// all the words that follow it. Any other line is refused.
pub fn parse_build_file(content: &str) -> (r: Result<BuildPlan, GrinddError>)
    ensures
        plan_result_view(r) == parse_build_text(content@),
{
    let cs = chars_of(content);
    let n = cs.len();
    let mut acc: Vec<BuildInstruction> = Vec::new();
    let mut start: usize = 0;
    assert(cs@.skip(0) =~= cs@);
    loop
        invariant
            start <= n,
            n == cs@.len(),
            cs@ == content@,
            prepend(instruction_views(acc@), parse_lines(split_lines(cs@.skip(start as int))))
                == parse_build_text(content@),
        decreases n - start,
    {
        let mut end: usize = start;
        while end < n && cs[end] != '\n'
            invariant
                start <= end <= n,
                n == cs@.len(),
                forall|k: int| start <= k < end ==> not_newline(#[trigger] cs@[k]),
            decreases n - end,
        {
            end = end + 1;
        }
        proof {
            lemma_split_lines_step(cs@, start as int, end as int);
        }
        let ghost lines = split_lines(cs@.skip(start as int));
        let raw = substring(content, start, end);
        let line = trim_str(raw.as_str());
        assert(lines[0] == raw@);
        assert(lines.drop_first() =~= if end < n {
            split_lines(cs@.skip(end + 1))
        } else {
            Seq::<Seq<char>>::empty()
        });
        match parse_build_line(line.as_str()) {
            Err(e) => {
                return Err(e);
            },
            Ok(opt) => {
                let ghost old_acc = instruction_views(acc@);
                let ghost opt_view: Option<InstructionView> = match &opt {
                    Some(i) => Some(i@),
                    None => None,
                };
                match opt {
                    Some(ins) => {
                        acc.push(ins);
                        assert(instruction_views(acc@) =~= old_acc.push(ins@));
                    },
                    None => {},
                }
                proof {
                    match (parse_lines(lines.drop_first()), opt_view) {
                        (Ok(rest), Some(v)) => {
                            assert(old_acc + (seq![v] + rest) =~= old_acc.push(v) + rest);
                        },
                        _ => {},
                    }
                }
                if end == n {
                    assert(parse_lines(Seq::<Seq<char>>::empty()) == Ok::<
                        Seq<InstructionView>,
                        ErrorView,
                    >(Seq::<InstructionView>::empty()));
                    assert(instruction_views(acc@) + Seq::<InstructionView>::empty()
                        =~= instruction_views(acc@));
                    return Ok(BuildPlan { instructions: acc });
                }
                start = end + 1;
            },
        }
    }
}


/// The layers already built, by the key of the instruction that built them.
pub struct BuildCache {
    pub layers: KeyedVec<String>,
}

impl View for BuildCache {
    type V = Map<Seq<char>, Seq<char>>;

    open spec fn view(&self) -> Map<Seq<char>, Seq<char>> {
        self.layers@.map_values(|s: String| s@)
    }
}

impl Default for BuildCache {
    /// An empty cache.
    fn default() -> (r: Self)
        ensures
            r@ == Map::<Seq<char>, Seq<char>>::empty(),
    {
        let r = BuildCache { layers: KeyedVec::new() };
        assert(r@ =~= Map::<Seq<char>, Seq<char>>::empty());
        r
    }
}

/// The words of a `CMD` joined with single spaces.
pub open spec fn join_words(args: Seq<Seq<char>>) -> Seq<char>
    decreases args.len(),
{
    if args.len() == 0 {
        seq![]
    } else if args.len() == 1 {
        args[0]
    } else {
        join_words(args.drop_last()) + " "@ + args.last()
    }
}

/// What stands for the content of a `COPY` source: its digest, or `missing`
/// when the file does not exist.
pub open spec fn copy_digest(source: Option<Seq<u8>>) -> Seq<char> {
    match source {
        Some(bytes) => content_digest_text(bytes),
        None => "missing"@,
    }
}

/// The cache key of an instruction. `source` is the content of the file that
/// a `COPY` copies, if that file exists; other instructions ignore it.
pub open spec fn key_text(i: InstructionView, source: Option<Seq<u8>>) -> Seq<char> {
    match i {
        InstructionView::From(x) => "FROM:"@ + x,
        InstructionView::Run(x) => "RUN:"@ + x,
        InstructionView::Copy { src, dst } => "COPY:"@ + src + ":"@ + dst + ":"@ + copy_digest(
            source,
        ),
        InstructionView::Cmd(args) => "CMD:"@ + join_words(args),
    }
}

pub open spec fn source_view(s: Option<Vec<u8>>) -> Option<Seq<u8>> {
    match s {
        Some(v) => Some(v@),
        None => None,
    }
}

pub open spec fn sources_view(s: Seq<Option<Vec<u8>>>) -> Seq<Option<Seq<u8>>> {
    s.map_values(|o: Option<Vec<u8>>| source_view(o))
}

/// The keys of the instructions of a plan, given the `COPY` sources.
pub open spec fn plan_keys(plan: Seq<InstructionView>, sources: Seq<Option<Seq<u8>>>) -> Seq<
    Seq<char>,
> {
    Seq::new(plan.len(), |i: int| key_text(plan[i], sources[i]))
}

/// The name of the `n`-th layer built.
pub open spec fn layer_name(n: nat) -> Seq<char> {
    "layer-"@ + decimal(n)
}

/// The layers of a build whose instructions have the keys `keys`, in order,
/// and the cache after it: a key found in the cache reuses its layer; a new
/// key gets the next layer name and is added to the cache.
pub open spec fn build_layers(keys: Seq<Seq<char>>, cache: Map<Seq<char>, Seq<char>>) -> (
    Seq<Seq<char>>,
    Map<Seq<char>, Seq<char>>,
)
    decreases keys.len(),
{
    if keys.len() == 0 {
        (seq![], cache)
    } else {
        let (layers, c) = build_layers(keys.drop_last(), cache);
        let k = keys.last();
        if c.contains_key(k) {
            (layers.push(c[k]), c)
        } else {
            let id = layer_name(layers.len());
            (layers.push(id), c.insert(k, id))
        }
    }
}

fn join_cmd_words(args: &Vec<String>) -> (r: String)
    ensures
        r@ == join_words(views(args@)),
{
    let mut r = String::new();
    let mut i: usize = 0;
    while i < args.len()
        invariant
            i <= args@.len(),
            r@ == join_words(views(args@).take(i as int)),
        decreases args@.len() - i,
    {
        let ghost vs = views(args@);
        assert(vs.take(i + 1).drop_last() =~= vs.take(i as int));
        assert(vs.take(i + 1).last() == args@[i as int]@);
        if i > 0 {
            r.append(" ");
        } else {
            assert(vs.take(1) =~= seq![args@[0]@]);
        }
        r.append(args[i].as_str());
        i = i + 1;
    }
    assert(views(args@).take(args@.len() as int) =~= views(args@));
    r
}

/// The cache key of a `COPY` from `src` to `dst` whose source content is
/// represented by `digest` (its digest, or `missing`).
pub fn copy_key(src: &str, dst: &str, digest: &str) -> (r: String)
    ensures
        r@ == "COPY:"@ + src@ + ":"@ + dst@ + ":"@ + digest@,
{
    let mut r = concat("COPY:", src);
    r.append(":");
    r.append(dst);
    r.append(":");
    r.append(digest);
    r
}

/// The cache key of `instruction`; `source` is the content of the file that a
/// `COPY` copies, when that file exists (the caller reads it).
pub fn instruction_key(instruction: &BuildInstruction, source: &Option<Vec<u8>>) -> (r: String)
    ensures
        r@ == key_text(instruction@, source_view(*source)),
{
    match instruction {
        BuildInstruction::From(x) => concat("FROM:", x.as_str()),
        BuildInstruction::Run(x) => concat("RUN:", x.as_str()),
        BuildInstruction::Copy { src, dst } => {
            let digest = match source {
                Some(bytes) => content_digest(bytes.as_slice()),
                None => String::from_str("missing"),
            };
            copy_key(src.as_str(), dst.as_str(), digest.as_str())
        },
        BuildInstruction::Cmd(args) => {
            let joined = join_cmd_words(args);
            concat("CMD:", joined.as_str())
        },
    }
}

/// Runs a build plan against the layer cache. `sources[i]` is the content of
/// the source file of instruction `i` when it is a `COPY` whose source exists
/// (the caller reads the files and saves the cache). Returns the layer of each
/// instruction.
pub fn execute_build(plan: &BuildPlan, sources: &Vec<Option<Vec<u8>>>, cache: &mut BuildCache) -> (r:
    Vec<String>)
    requires
        sources@.len() == plan.instructions@.len(),
    ensures
        (views(r@), final(cache)@) == build_layers(
            plan_keys(plan@, sources_view(sources@)),
            old(cache)@,
        ),
{
    let n = plan.instructions.len();
    let ghost keys = plan_keys(plan@, sources_view(sources@));
    let mut built: Vec<String> = Vec::new();
    let mut i: usize = 0;
    assert(keys.take(0) =~= Seq::<Seq<char>>::empty());
    while i < n
        invariant
            i <= n,
            n == plan.instructions@.len(),
            sources@.len() == n,
            keys == plan_keys(plan@, sources_view(sources@)),
            (views(built@), cache@) == build_layers(keys.take(i as int), old(cache)@),
        decreases n - i,
    {
        let key = instruction_key(&plan.instructions[i], &sources[i]);
        proof {
            assert(keys.take(i + 1).drop_last() =~= keys.take(i as int));
            assert(keys.take(i + 1).last() == key@);
        }
        let ghost old_built = views(built@);
        let ghost old_map = cache@;
        match cache.layers.get(key.as_str()) {
            Some(layer) => {
                let l = layer.clone();
                built.push(l);
                assert(views(built@) =~= old_built.push(old_map[key@]));
            },
            None => {
                let number = decimal_string(built.len() as u64);
                let id = concat("layer-", number.as_str());
                let ghost id_view = id@;
                cache.layers.insert(key, id.clone());
                built.push(id);
                assert(views(built@) =~= old_built.push(id_view));
                assert(cache@ =~= old_map.insert(key@, id_view));
            },
        }
        i = i + 1;
    }
    assert(keys.take(n as int) =~= keys);
    built
}

/// Where the build cache is kept under the state root.
pub fn default_cache_path(state_root: &str) -> (r: String)
    ensures
        r@ == path_join(state_root@, "build-cache.json"@),
{
    join(state_root, "build-cache.json")
}


/// A build gives one layer per instruction, keeps every entry the cache had,
/// and leaves each instruction's key in the cache, mapped to its layer.
pub proof fn law_build_extends_cache(keys: Seq<Seq<char>>, cache: Map<Seq<char>, Seq<char>>)
    ensures
        ({
            let (layers, after) = build_layers(keys, cache);
            &&& layers.len() == keys.len()
            &&& cache.submap_of(after)
            &&& forall|i: int|
                0 <= i < keys.len() ==> #[trigger] after.contains_key(keys[i]) && after[keys[i]]
                    == layers[i]
            &&& forall|k: Seq<char>|
                #[trigger] after.contains_key(k) ==> cache.contains_key(k) || keys.contains(k)
        }),
    decreases keys.len(),
{
    if keys.len() > 0 {
        let prefix = keys.drop_last();
        law_build_extends_cache(prefix, cache);
        let (layers0, c0) = build_layers(prefix, cache);
        let (layers, after) = build_layers(keys, cache);
        let k = keys.last();
        assert forall|i: int| 0 <= i < keys.len() implies #[trigger] after.contains_key(keys[i])
            && after[keys[i]] == layers[i] by {
            if i < keys.len() - 1 {
                assert(keys[i] == prefix[i]);
            }
        }
        assert forall|q: Seq<char>| #[trigger]
            after.contains_key(q) implies cache.contains_key(q) || keys.contains(q) by {
            if q == k {
                assert(keys[keys.len() - 1] == k);
            } else if !cache.contains_key(q) {
                assert(c0.contains_key(q));
                let j = choose|j: int| 0 <= j < prefix.len() && prefix[j] == q;
                assert(keys[j] == q);
            }
        }
    }
}

/// Against a cache that holds every key, a build adds nothing and reuses the
/// cached layer of each instruction.
proof fn lemma_build_all_cached(keys: Seq<Seq<char>>, cache: Map<Seq<char>, Seq<char>>)
    requires
        forall|i: int| 0 <= i < keys.len() ==> #[trigger] cache.contains_key(keys[i]),
    ensures
        build_layers(keys, cache) == (Seq::new(keys.len(), |i: int| cache[keys[i]]), cache),
    decreases keys.len(),
{
    if keys.len() > 0 {
        let prefix = keys.drop_last();
        assert forall|i: int| 0 <= i < prefix.len() implies #[trigger] cache.contains_key(
            prefix[i],
        ) by {
            assert(prefix[i] == keys[i]);
        }
        lemma_build_all_cached(prefix, cache);
        assert(cache.contains_key(keys[keys.len() - 1]));
        assert(Seq::new(prefix.len(), |i: int| cache[prefix[i]]).push(cache[keys.last()])
            =~= Seq::new(keys.len(), |i: int| cache[keys[i]]));
    }
}

/// Building the same plan again, against the cache the first build left,
/// reuses every layer of the first build and leaves the cache unchanged.
pub proof fn law_rebuild_reuses_layers(keys: Seq<Seq<char>>, cache: Map<Seq<char>, Seq<char>>)
    ensures
        ({
            let (layers, after) = build_layers(keys, cache);
            build_layers(keys, after) == (layers, after)
        }),
{
    law_build_extends_cache(keys, cache);
    let (layers, after) = build_layers(keys, cache);
    lemma_build_all_cached(keys, after);
    assert forall|i: int| 0 <= i < keys.len() implies after[keys[i]] == layers[i] by {
        assert(after.contains_key(keys[i]));
    }
    assert(Seq::new(keys.len(), |i: int| after[keys[i]]) =~= layers);
}


/// The key of a `COPY` follows the content of its source: sources with the
/// same digest give the same key, and a source that exists never gives the
/// key of one that is missing.
pub proof fn law_copy_key_follows_content(
    src: Seq<char>,
    dst: Seq<char>,
    content: Seq<u8>,
    other: Seq<u8>,
)
    ensures
        sha256_of(content) == sha256_of(other) ==> key_text(
            InstructionView::Copy { src, dst },
            Some(content),
        ) == key_text(InstructionView::Copy { src, dst }, Some(other)),
        key_text(InstructionView::Copy { src, dst }, Some(content)) != key_text(
            InstructionView::Copy { src, dst },
            None,
        ),
{
    let prefix = "COPY:"@ + src + ":"@ + dst + ":"@;
    let present = key_text(InstructionView::Copy { src, dst }, Some(content));
    let missing = key_text(InstructionView::Copy { src, dst }, None);
    lemma_hex_lower_len(sha256_of(content));
    reveal_strlit("missing");
    assert(present.len() == prefix.len() + 2 * sha256_of(content).len());
    assert(missing.len() == prefix.len() + 7);
}


/// Blank lines and comment lines may be added anywhere in a build file
/// without changing what it says.
pub proof fn law_comment_lines_ignored(lines: Seq<Seq<char>>, k: int, extra: Seq<char>)
    requires
        0 <= k <= lines.len(),
        trim(extra).len() == 0 || trim(extra)[0] == '#',
    ensures
        parse_lines(lines.insert(k, extra)) == parse_lines(lines),
    decreases lines.len(),
{
    let with_extra = lines.insert(k, extra);
    if k == 0 {
        assert(with_extra[0] == extra);
        assert(with_extra.drop_first() =~= lines);
    } else {
        assert(with_extra[0] == lines[0]);
        assert(with_extra.drop_first() =~= lines.drop_first().insert(k - 1, extra));
        law_comment_lines_ignored(lines.drop_first(), k - 1, extra);
    }
}

/// A line that starts with "RUN " is a `RUN` of everything after that
/// keyword, trimmed, every character kept: only a line that starts with `#`
/// is a comment, so a `#` inside a command belongs to it.
pub proof fn law_run_line_keeps_whole_command(line: Seq<char>)
    requires
        line.len() >= 4,
        line[0] == 'R',
        line[1] == 'U',
        line[2] == 'N',
        line[3] == ' ',
    ensures
        parse_line(line) == Ok::<Option<InstructionView>, ErrorView>(
            Some(InstructionView::Run(trim(line.skip(4)))),
        ),
{
    assert(!has_prefix(line, kw_from())) by {
        if line.len() >= 5 {
            assert(line.take(5)[0] == line[0]);
        }
    }
    assert(line.take(4) =~= kw_run());
}

/// How each kind of line reads: a blank line or one that starts with `#`
/// says nothing; "FROM " gives the base image (the rest, trimmed); "CMD "
/// gives the words of the rest; "COPY " needs exactly two words (source and
/// destination) and is refused otherwise; any other line is refused as an
/// unknown instruction.
pub proof fn law_line_kinds(line: Seq<char>)
    ensures
        line.len() == 0 || line[0] == '#' ==> parse_line(line) == Ok::<
            Option<InstructionView>,
            ErrorView,
        >(None),
        has_prefix(line, seq!['F', 'R', 'O', 'M', ' ']) ==> parse_line(line) == Ok::<
            Option<InstructionView>,
            ErrorView,
        >(Some(InstructionView::From(trim(line.skip(5))))),
        has_prefix(line, seq!['C', 'M', 'D', ' ']) ==> parse_line(line) == Ok::<
            Option<InstructionView>,
            ErrorView,
        >(Some(InstructionView::Cmd(words(line.skip(4))))),
        has_prefix(line, seq!['C', 'O', 'P', 'Y', ' ']) && words(line.skip(5)).len() == 2
            ==> parse_line(line) == Ok::<Option<InstructionView>, ErrorView>(
            Some(
                InstructionView::Copy {
                    src: words(line.skip(5))[0],
                    dst: words(line.skip(5))[1],
                },
            ),
        ),
        has_prefix(line, seq!['C', 'O', 'P', 'Y', ' ']) && words(line.skip(5)).len() != 2
            ==> parse_line(line) == Err::<Option<InstructionView>, ErrorView>(
            ErrorView::Build("invalid COPY line: "@ + line),
        ),
        line.len() > 0 && line[0] != '#' && !has_prefix(line, seq!['F', 'R', 'O', 'M', ' '])
            && !has_prefix(line, seq!['R', 'U', 'N', ' ']) && !has_prefix(
            line,
            seq!['C', 'O', 'P', 'Y', ' '],
        ) && !has_prefix(line, seq!['C', 'M', 'D', ' ']) ==> parse_line(line) == Err::<
            Option<InstructionView>,
            ErrorView,
        >(ErrorView::Build("unknown instruction: "@ + line)),
{
    if line.len() > 0 {
        if line.len() >= 4 {
            assert(line.take(4)[0] == line[0]);
            assert(line.take(4)[1] == line[1]);
        }
        if line.len() >= 5 {
            assert(line.take(5)[0] == line[0]);
            assert(line.take(5)[1] == line[1]);
        }
    }
    assert(kw_from() =~= seq!['F', 'R', 'O', 'M', ' ']);
    assert(kw_run() =~= seq!['R', 'U', 'N', ' ']);
    assert(kw_copy() =~= seq!['C', 'O', 'P', 'Y', ' ']);
    assert(kw_cmd() =~= seq!['C', 'M', 'D', ' ']);
}

} // verus!
