//! Configuration: the server to reach, the local host's name, the metric to
//! send and the tags to send with it, merged from defaults, a loaded
//! configuration and command line arguments.

use crate::tags::{distinct_keys, lemma_put, pairs_map, put, Pair, Tags};
use vstd::prelude::*;

verus! {

/// Represents connection parameters to reach Bosun as well as default tags to append to each metric
/// datum.
#[allow(non_snake_case)]
#[derive(Debug)]
pub struct BosunConfig {
    /// Bosun server host name
    pub Host: String,
    /// Local host name
    pub Hostname: String,
    /// Tags to always append to each metric
    pub Tags: Tags,
}

impl BosunConfig {
    /// Creates a default configuration for `localhost`, port `8070`.
    pub fn default() -> (config: BosunConfig)
        ensures
            config.Host@ == "localhost:8070"@,
            config.Hostname@ == "localhost"@,
            config.Tags.entries() == Seq::<Pair>::empty(),
    {
        BosunConfig {
            Host: String::from_str("localhost:8070"),
            Hostname: String::from_str("localhost"),
            Tags: Tags::new(),
        }
    }
}

/// Everything an emission needs to know.
#[derive(Debug)]
pub struct Config {
    pub host: String,
    pub hostname: String,
    pub metric: Option<String>,
    pub value: Option<String>,
    pub rate: Option<String>,
    pub unit: Option<String>,
    pub description: Option<String>,
    pub tags: Tags,
}

impl Config {
    /// The default configuration: the default server and host name, no metric, no tags.
    pub fn default() -> (config: Config)
        ensures
            config.host@ == "localhost:8070"@,
            config.hostname@ == "localhost"@,
            config.names_no_metric(),
            config.tags.entries() == Seq::<Pair>::empty(),
    {
        let bosun_config = BosunConfig::default();
        Config::from_bosun_config(bosun_config)
    }

    /// Neither a metric nor anything about one is set.
    pub open spec fn names_no_metric(&self) -> bool {
        &&& self.metric is None
        &&& self.value is None
        &&& self.rate is None
        &&& self.unit is None
        &&& self.description is None
    }

    /// Takes server, host name and tags from a loaded configuration; no metric is set.
    pub fn from_bosun_config(bosun_config: BosunConfig) -> (config: Config)
        ensures
            config.host@ == bosun_config.Host@,
            config.hostname@ == bosun_config.Hostname@,
            config.names_no_metric(),
            config.tags.entries() == bosun_config.Tags.entries(),
    {
        Config {
            host: bosun_config.Host,
            hostname: bosun_config.Hostname,
            metric: None,
            value: None,
            rate: None,
            unit: None,
            description: None,
            tags: bosun_config.Tags,
        }
    }
}

/// The place of the first occurrence of a character in a text, the text's
/// length where it does not occur.
pub open spec fn first_index(s: Seq<char>, c: char) -> int
    decreases s.len(),
{
    if s.len() == 0 || s[0] == c {
        0
    } else {
        1 + first_index(s.drop_first(), c)
    }
}

/// The segments of a text between its commas. A text without a comma is one
/// segment, and so is the empty text.
pub open spec fn segments(s: Seq<char>) -> Seq<Seq<char>>
    decreases s.len(),
{
    let n = first_index(s, ',');
    if 0 <= n < s.len() {
        seq![s.take(n)] + segments(s.skip(n + 1))
    } else {
        seq![s]
    }
}

/// The tag that a segment gives: what stands before its equals sign is the key,
/// what stands after it the value. A segment with no equals sign, or with more
/// than one, gives no tag.
pub open spec fn parse_tag(segment: Seq<char>) -> Option<Pair> {
    let eq = first_index(segment, '=');
    if 0 <= eq < segment.len() && first_index(segment.skip(eq + 1), '=') == segment.len() - eq
        - 1 {
        Some((segment.take(eq), segment.skip(eq + 1)))
    } else {
        None
    }
}

/// Every segment gives a tag.
pub open spec fn all_tags(segs: Seq<Seq<char>>) -> bool
    decreases segs.len(),
{
    segs.len() == 0 || (parse_tag(segs[0]) is Some && all_tags(segs.drop_first()))
}

/// The tags of the segments that come before the first segment that gives none.
pub open spec fn leading_tags(segs: Seq<Seq<char>>) -> Seq<Pair>
    decreases segs.len(),
{
    if segs.len() == 0 {
        Seq::empty()
    } else {
        match parse_tag(segs[0]) {
            Some(tag) => seq![tag] + leading_tags(segs.drop_first()),
            None => Seq::empty(),
        }
    }
}

/// The entries after each of the tags has been put, one after the other.
pub open spec fn put_all(entries: Seq<Pair>, tags: Seq<Pair>) -> Seq<Pair>
    decreases tags.len(),
{
    if tags.len() == 0 {
        entries
    } else {
        put(put_all(entries, tags.drop_last()), tags.last().0, tags.last().1)
    }
}

/// The message that reports a tag string that cannot be parsed.
pub open spec fn tags_error(tags_string: Seq<char>) -> Seq<char> {
    "unable to parse tags: '"@ + tags_string + "'"@
}

/// `first_index` is a place in the text or the text's length; the character
/// stands there and nowhere before.
pub proof fn lemma_first_index(s: Seq<char>, c: char)
    ensures
        0 <= first_index(s, c) <= s.len(),
        first_index(s, c) < s.len() ==> s[first_index(s, c)] == c,
        forall|j: int| 0 <= j < first_index(s, c) ==> s[j] != c,
    decreases s.len(),
{
    if s.len() != 0 && s[0] != c {
        let rest = s.drop_first();
        lemma_first_index(rest, c);
        assert forall|j: int| 0 <= j < first_index(s, c) implies s[j] != c by {
            if j > 0 {
                assert(rest[j - 1] == s[j]);
            }
        }
    }
}

/// A place where the character stands, or the text's length, with no
/// occurrence before it, is `first_index`.
pub proof fn lemma_first_index_is(s: Seq<char>, c: char, k: int)
    requires
        0 <= k <= s.len(),
        k < s.len() ==> s[k] == c,
        forall|j: int| 0 <= j < k ==> s[j] != c,
    ensures
        first_index(s, c) == k,
{
    lemma_first_index(s, c);
}

/// Putting tags keeps the keys distinct, and later tags win: the mapping is the
/// one from before, overlaid with the mapping of the tags that were put.
pub proof fn lemma_put_all(entries: Seq<Pair>, tags: Seq<Pair>)
    requires
        distinct_keys(entries),
    ensures
        distinct_keys(put_all(entries, tags)),
        pairs_map(put_all(entries, tags)) == pairs_map(entries).union_prefer_right(pairs_map(tags)),
    decreases tags.len(),
{
    if tags.len() == 0 {
        assert(pairs_map(entries).union_prefer_right(pairs_map(tags)) =~= pairs_map(entries));
    } else {
        let front = tags.drop_last();
        let last = tags.last();
        lemma_put_all(entries, front);
        lemma_put(put_all(entries, front), last.0, last.1);
        assert(pairs_map(entries).union_prefer_right(pairs_map(front)).insert(last.0, last.1)
            =~= pairs_map(entries).union_prefer_right(pairs_map(front).insert(last.0, last.1)));
    }
}

/// The message that reports a tag string that cannot be parsed.
fn tags_error_message(tags_string: &str) -> (message: String)
    ensures
        message@ == tags_error(tags_string@),
{
    let mut message = String::from_str("unable to parse tags: '");
    message.append(tags_string);
    message.append("'");
    message
}

/// What the scan of one segment found: where the segment ends, and where its
/// equals signs stand.
struct Scan {
    end: usize,
    eq_at: Option<usize>,
    extra: bool,
}

/// Scans the segment that starts at a place: up to the next comma or the end of the text.
fn scan_segment(text: &str, start: usize, n: usize) -> (scan: Scan)
    requires
        n == text@.len(),
        start <= n,
    ensures
        start <= scan.end <= n,
        segments(text@.skip(start as int)) == if scan.end < n {
            seq![text@.subrange(start as int, scan.end as int)] + segments(
                text@.skip(scan.end + 1),
            )
        } else {
            seq![text@.subrange(start as int, scan.end as int)]
        },
        match parse_tag(text@.subrange(start as int, scan.end as int)) {
            Some(tag) => {
                &&& !scan.extra
                &&& scan.eq_at matches Some(e)
                &&& start <= e < scan.end
                &&& tag == (
                    text@.subrange(start as int, e as int),
                    text@.subrange(e + 1, scan.end as int),
                )
            },
            None => scan.extra || scan.eq_at is None,
        },
{
    let ghost s = text@;
    let mut end = start;
    let mut eq_at: Option<usize> = None;
    let mut extra = false;
    let ghost mut second: int = 0;
    while end < n
        invariant
            s == text@,
            n == s.len(),
            start <= end <= n,
            forall|j: int| start <= j < end ==> s[j] != ',',
            match eq_at {
                Some(e) => start <= e < end && s[e as int] == '=' && forall|j: int|
                    start <= j < e ==> s[j] != '=',
                None => !extra && forall|j: int| start <= j < end ==> s[j] != '=',
            },
            extra ==> eq_at is Some && eq_at.unwrap() < second < end && s[second] == '=',
            !extra && eq_at is Some ==> forall|j: int| eq_at.unwrap() < j < end ==> s[j] != '=',
        ensures
            end == n || s[end as int] == ',',
        decreases n - end,
    {
        let c = text.get_char(end);
        if c == ',' {
            break;
        }
        if c == '=' {
            match eq_at {
                Some(_) => {
                    if !extra {
                        proof {
                            second = end as int;
                        }
                    }
                    extra = true;
                },
                None => {
                    eq_at = Some(end);
                },
            }
        }
        end = end + 1;
    }
    proof {
        let rest = s.skip(start as int);
        let seg = s.subrange(start as int, end as int);
        lemma_first_index_is(rest, ',', end - start);
        assert(rest.take(end - start) == seg);
        if end < n {
            assert(rest.skip(end - start + 1) == s.skip(end + 1));
        } else {
            assert(rest == seg);
        }
        match eq_at {
            Some(e) => {
                lemma_first_index_is(seg, '=', e - start);
                let tail = seg.skip(e - start + 1);
                assert(seg.take(e - start) == s.subrange(start as int, e as int));
                assert(tail == s.subrange(e + 1, end as int));
                if extra {
                    lemma_first_index(tail, '=');
                    assert(tail[second - e - 1] == '=');
                } else {
                    lemma_first_index_is(tail, '=', tail.len() as int);
                }
            },
            None => {
                lemma_first_index_is(seg, '=', seg.len() as int);
            },
        }
    }
    Scan { end, eq_at, extra }
}

/// Parses a tag string of the form `KEY1=VALUE1,KEY2=VALUE2,...` and puts its
/// tags into the configuration's tags, in their order; a later tag with the same
/// key wins. Each segment between commas must hold exactly one equals sign. At
/// the first segment that does not, parsing stops with an error; the tags
/// before that segment have been put.
pub fn parse_tags(config: &mut Config, tags_string: &str) -> (r: Result<(), String>)
    ensures
        final(config).tags.entries() == put_all(
            old(config).tags.entries(),
            leading_tags(segments(tags_string@)),
        ),
        r is Ok <==> all_tags(segments(tags_string@)),
        r matches Err(message) ==> message@ == tags_error(tags_string@),
        final(config).host == old(config).host,
        final(config).hostname == old(config).hostname,
        final(config).metric == old(config).metric,
        final(config).value == old(config).value,
        final(config).rate == old(config).rate,
        final(config).unit == old(config).unit,
        final(config).description == old(config).description,
{
    let n = tags_string.unicode_len();
    let ghost s = tags_string@;
    let ghost before = config.tags.entries();
    let ghost mut done: Seq<Pair> = Seq::empty();
    let mut start: usize = 0;
    assert(s.skip(0) == s);
    loop
        invariant
            s == tags_string@,
            n == s.len(),
            start <= n,
            config.tags.entries() == put_all(before, done),
            before == old(config).tags.entries(),
            leading_tags(segments(s)) == done + leading_tags(segments(s.skip(start as int))),
            all_tags(segments(s)) == all_tags(segments(s.skip(start as int))),
            config.host == old(config).host,
            config.hostname == old(config).hostname,
            config.metric == old(config).metric,
            config.value == old(config).value,
            config.rate == old(config).rate,
            config.unit == old(config).unit,
            config.description == old(config).description,
        decreases n - start,
    {
        let scan = scan_segment(tags_string, start, n);
        let ghost segs = segments(s.skip(start as int));
        let ghost seg = s.subrange(start as int, scan.end as int);
        proof {
            assert(segs[0] == seg);
            if scan.end < n {
                assert(segs.drop_first() == segments(s.skip(scan.end + 1)));
            } else {
                assert(segs.drop_first() == Seq::<Seq<char>>::empty());
            }
        }
        let eq = match scan.eq_at {
            Some(e) => e,
            None => {
                return Err(tags_error_message(tags_string));
            },
        };
        if scan.extra {
            return Err(tags_error_message(tags_string));
        }
        let key = String::from_str(tags_string.substring_char(start, eq));
        let value = String::from_str(tags_string.substring_char(eq + 1, scan.end));
        proof {
            let tag = (key@, value@);
            assert(parse_tag(seg) == Some(tag));
            assert(done.push(tag).drop_last() == done);
            assert(done + (seq![tag] + leading_tags(segs.drop_first())) == done.push(tag)
                + leading_tags(segs.drop_first()));
            done = done.push(tag);
        }
        config.tags.insert(key, value);
        if scan.end == n {
            proof {
                assert(done + Seq::<Pair>::empty() == done);
                assert(all_tags(segs.drop_first()));
            }
            return Ok(());
        }
        start = scan.end + 1;
    }
}

/// What the command line gave: each argument that can change the configuration,
/// `None` where it was not given.
#[derive(Debug)]
pub struct CliArgs {
    pub host: Option<String>,
    pub hostname: Option<String>,
    pub metric: Option<String>,
    pub value: Option<String>,
    pub rate: Option<String>,
    pub unit: Option<String>,
    pub description: Option<String>,
    /// The tag string, of the form `KEY1=VALUE1,KEY2=VALUE2,...`.
    pub tags: Option<String>,
}

/// The characters of an optional text.
pub open spec fn text_of(text: Option<String>) -> Option<Seq<char>> {
    match text {
        Some(t) => Some(t@),
        None => None,
    }
}

/// The one of two texts that counts: the argument where it was given, else
/// what the configuration has.
pub open spec fn overridden(configured: Seq<char>, argument: Option<Seq<char>>) -> Seq<char> {
    match argument {
        Some(a) => a,
        None => configured,
    }
}

/// The tags of a merged configuration. The configured tags come first; the
/// configured host name is put under the key `host`, then the host name given
/// as an argument, if there is one; the tags of the tag string are put last, in
/// their order. Whatever is put later wins over what was there.
pub open spec fn merged_tags(
    configured: Seq<Pair>,
    hostname: Seq<char>,
    hostname_argument: Option<Seq<char>>,
    tags_argument: Option<Seq<char>>,
) -> Seq<Pair> {
    let seeded = put(configured, "host"@, hostname);
    let named = match hostname_argument {
        Some(h) => put(seeded, "host"@, h),
        None => seeded,
    };
    match tags_argument {
        Some(t) => put_all(named, leading_tags(segments(t))),
        None => named,
    }
}

/// The tag string can be parsed, or there is none.
pub open spec fn tags_parse(tags_argument: Option<Seq<char>>) -> bool {
    match tags_argument {
        Some(t) => all_tags(segments(t)),
        None => true,
    }
}

/// Tag merge precedence. In the merged tags the keys are distinct, and they
/// map as the configured tags do, overlaid first with the host name under
/// `host` and then with the tags of the tag string. So a host name given as an
/// argument replaces the configured one under `host`, and a `host` tag in the
/// tag string replaces either.
pub proof fn lemma_merge_precedence(
    configured: Seq<Pair>,
    hostname: Seq<char>,
    hostname_argument: Option<Seq<char>>,
    tags_argument: Option<Seq<char>>,
)
    requires
        distinct_keys(configured),
    ensures
        ({
            let merged = merged_tags(configured, hostname, hostname_argument, tags_argument);
            let named = pairs_map(configured).insert(
                "host"@,
                overridden(hostname, hostname_argument),
            );
            let given = match tags_argument {
                Some(t) => pairs_map(leading_tags(segments(t))),
                None => Map::empty(),
            };
            &&& distinct_keys(merged)
            &&& pairs_map(merged) == named.union_prefer_right(given)
            &&& pairs_map(merged).contains_key("host"@)
            &&& pairs_map(merged)["host"@] == if given.contains_key("host"@) {
                given["host"@]
            } else {
                overridden(hostname, hostname_argument)
            }
        }),
{
    let seeded = put(configured, "host"@, hostname);
    lemma_put(configured, "host"@, hostname);
    let named = match hostname_argument {
        Some(h) => put(seeded, "host"@, h),
        None => seeded,
    };
    match hostname_argument {
        Some(h) => {
            lemma_put(seeded, "host"@, h);
            assert(pairs_map(configured).insert("host"@, hostname).insert("host"@, h)
                =~= pairs_map(configured).insert("host"@, h));
        },
        None => {},
    }
    match tags_argument {
        Some(t) => {
            lemma_put_all(named, leading_tags(segments(t)));
        },
        None => {
            assert(pairs_map(named).union_prefer_right(Map::<Seq<char>, Seq<char>>::empty())
                =~= pairs_map(named));
        },
    }
}

/// A copy of an optional text.
fn clone_text(text: &Option<String>) -> (copy: Option<String>)
    ensures
        text_of(copy) == text_of(*text),
{
    match text {
        Some(t) => Some(t.clone()),
        None => None,
    }
}

/// Merges the command line's arguments over a configuration, which was loaded
/// or is the default one. Server and host name are the arguments' where they
/// were given; the metric and what describes it come from the arguments alone;
/// the tags are merged as `merged_tags` says. It fails exactly if there is a tag
/// string that cannot be parsed.
pub fn parse_args(bosun_config: BosunConfig, cli_args: &CliArgs) -> (r: Result<Config, String>)
    ensures
        r is Ok <==> tags_parse(text_of(cli_args.tags)),
        r matches Ok(config) ==> {
            &&& config.host@ == overridden(bosun_config.Host@, text_of(cli_args.host))
            &&& config.hostname@ == overridden(bosun_config.Hostname@, text_of(cli_args.hostname))
            &&& text_of(config.metric) == text_of(cli_args.metric)
            &&& text_of(config.value) == text_of(cli_args.value)
            &&& text_of(config.rate) == text_of(cli_args.rate)
            &&& text_of(config.unit) == text_of(cli_args.unit)
            &&& text_of(config.description) == text_of(cli_args.description)
            &&& config.tags.entries() == merged_tags(
                bosun_config.Tags.entries(),
                bosun_config.Hostname@,
                text_of(cli_args.hostname),
                text_of(cli_args.tags),
            )
        },
        r matches Err(message) ==> cli_args.tags matches Some(t) && message@ == tags_error(t@),
{
    let ghost configured = bosun_config.Tags.entries();
    let ghost hostname = bosun_config.Hostname@;
    let mut config = Config::from_bosun_config(bosun_config);
    match &cli_args.host {
        Some(host) => {
            config.host = host.clone();
        },
        None => {},
    }
    config.tags.insert(String::from_str("host"), config.hostname.clone());
    match &cli_args.hostname {
        Some(hostname) => {
            config.hostname = hostname.clone();
            config.tags.insert(String::from_str("host"), hostname.clone());
        },
        None => {},
    }
    config.metric = clone_text(&cli_args.metric);
    config.value = clone_text(&cli_args.value);
    config.rate = clone_text(&cli_args.rate);
    config.unit = clone_text(&cli_args.unit);
    config.description = clone_text(&cli_args.description);
    match &cli_args.tags {
        Some(tags_string) => {
            match parse_tags(&mut config, tags_string.as_str()) {
                Ok(()) => {},
                Err(message) => {
                    return Err(message);
                },
            }
        },
        None => {},
    }
    Ok(config)
}

} // verus!
