//! Node configuration options and their rendering as a TOML template.

use vstd::prelude::*;
use vstd::string::StringExecFns;

verus! {

pub const DEFAULT_EXTERNAL_RPC_URL: &'static str = "http://127.0.0.1:3000";

pub const DEFAULT_INTERNAL_RPC_URL: &'static str = "http://127.0.0.1:4000";

pub const DEFAULT_CLUSTER_RPC_URL: &'static str = "http://127.0.0.1:5000";

pub const DEFAULT_RADIUS_FOUNDATION_ADDRESS: &'static str = "0xf39Fd6e51aad88F6F4ce6aB8827279cffFb92266";

pub const DEFAULT_CHAIN_TYPE: &'static str = "Ethereum";

pub const DEFAULT_PARTIAL_KEY_GENERATION_CYCLE: u64 = 5;

pub const DEFAULT_PARTIAL_KEY_AGGREGATION_CYCLE: u64 = 4;

/// What `{:?}` prints for a string with the given characters: the string in
/// double quotes, with the characters that `str`'s `Debug` escapes written as
/// escapes.
pub uninterp spec fn str_debug(s: Seq<char>) -> Seq<char>;

/// Formats a string with `{:?}` (std's `Debug` for `str`). The result is a
/// function of the characters alone; it is named, not spelled out.
#[verifier::external_body]
fn debug_quoted(s: &str) -> (r: String)
    ensures
        r@ == str_debug(s@),
{
    format!("{:?}", s)
}

/// The character of one decimal digit.
pub open spec fn decimal_digit(d: nat) -> char
    recommends
        d < 10,
{
    if d == 0 {
        '0'
    } else if d == 1 {
        '1'
    } else if d == 2 {
        '2'
    } else if d == 3 {
        '3'
    } else if d == 4 {
        '4'
    } else if d == 5 {
        '5'
    } else if d == 6 {
        '6'
    } else if d == 7 {
        '7'
    } else if d == 8 {
        '8'
    } else {
        '9'
    }
}

/// A natural number in decimal, without leading zeros.
pub open spec fn decimal_text(n: nat) -> Seq<char>
    decreases n,
{
    if n < 10 {
        seq![decimal_digit(n)]
    } else {
        decimal_text(n / 10).push(decimal_digit(n % 10))
    }
}

fn digit_str(d: u64) -> (r: &'static str)
    requires
        d < 10,
    ensures
        r@ == seq![decimal_digit(d as nat)],
{
    proof {
        reveal_strlit("0");
        reveal_strlit("1");
        reveal_strlit("2");
        reveal_strlit("3");
        reveal_strlit("4");
        reveal_strlit("5");
        reveal_strlit("6");
        reveal_strlit("7");
        reveal_strlit("8");
        reveal_strlit("9");
    }
    let r = if d == 0 {
        "0"
    } else if d == 1 {
        "1"
    } else if d == 2 {
        "2"
    } else if d == 3 {
        "3"
    } else if d == 4 {
        "4"
    } else if d == 5 {
        "5"
    } else if d == 6 {
        "6"
    } else if d == 7 {
        "7"
    } else if d == 8 {
        "8"
    } else {
        "9"
    };
    assert(r@ =~= seq![decimal_digit(d as nat)]);
    r
}

/// Appends `n` in decimal to `out`.
pub fn push_decimal(out: &mut String, n: u64)
    ensures
        final(out)@ == old(out)@ + decimal_text(n as nat),
    decreases n,
{
    if n >= 10 {
        push_decimal(out, n / 10);
    }
    let d = digit_str(n % 10);
    out.append(d);
    assert(final(out)@ =~= old(out)@ + decimal_text(n as nat));
}

/// A value that can stand on the right-hand side of a `name = value` line.
pub trait TomlValue {
    /// The text of the value as the line shows it.
    spec fn toml_text(&self) -> Seq<char>;

    /// Renders the value.
    fn to_toml(&self) -> (r: String)
        ensures
            r@ == self.toml_text(),
    ;
}

impl TomlValue for String {
    open spec fn toml_text(&self) -> Seq<char> {
        str_debug(self@)
    }

    fn to_toml(&self) -> (r: String) {
        debug_quoted(self.as_str())
    }
}

impl TomlValue for u64 {
    open spec fn toml_text(&self) -> Seq<char> {
        decimal_text(*self as nat)
    }

    fn to_toml(&self) -> (r: String) {
        let mut r = String::new();
        push_decimal(&mut r, *self);
        assert(r@ =~= decimal_text(*self as nat));
        r
    }
}

/// A comment line: `# `, the comment, a line feed.
pub open spec fn comment_line(comment: Seq<char>) -> Seq<char> {
    "# "@ + comment + "\n"@
}

/// A `name = value` line followed by an empty line. An absent value gives the
/// line commented out, with `None` in the value's place.
pub open spec fn name_value_line(name: Seq<char>, value: Option<Seq<char>>) -> Seq<char> {
    match value {
        Some(text) => name + " = "@ + text + "\n\n"@,
        None => "# "@ + name + " = None\n\n"@,
    }
}

/// The text of an optional value, where there is one.
pub open spec fn value_text<T: TomlValue>(value: Option<T>) -> Option<Seq<char>> {
    match value {
        Some(v) => Some(v.toml_text()),
        None => None,
    }
}

/// Appends a comment line to `toml_string`.
pub fn set_toml_comment(toml_string: &mut String, comment: &str)
    ensures
        final(toml_string)@ == old(toml_string)@ + comment_line(comment@),
{
    let mut line = String::new();
    line.append("# ");
    line.append(comment);
    line.append("\n");
    toml_string.append(line.as_str());
    assert(line@ =~= comment_line(comment@));
}

/// The characters of an optional text.
pub open spec fn text_view(text: Option<&str>) -> Option<Seq<char>> {
    match text {
        Some(t) => Some(t@),
        None => None,
    }
}

/// Appends the line of one option to `toml_string`, given the text of the
/// option's value where it has one.
pub fn push_name_value(toml_string: &mut String, name: &str, text: Option<&str>)
    ensures
        final(toml_string)@ == old(toml_string)@ + name_value_line(name@, text_view(text)),
{
    let mut line = String::new();
    match text {
        Some(t) => {
            line.append(name);
            line.append(" = ");
            line.append(t);
            line.append("\n\n");
        },
        None => {
            line.append("# ");
            line.append(name);
            line.append(" = None\n\n");
        },
    }
    toml_string.append(line.as_str());
    assert(line@ =~= name_value_line(name@, text_view(text)));
}

/// Appends the line of one option to `toml_string`.
pub fn set_toml_name_value<T: TomlValue>(toml_string: &mut String, name: &str, value: &Option<T>)
    ensures
        final(toml_string)@ == old(toml_string)@ + name_value_line(name@, value_text(*value)),
{
    match value {
        Some(v) => {
            let text = v.to_toml();
            push_name_value(toml_string, name, Some(text.as_str()));
        },
        None => {
            push_name_value(toml_string, name, None);
        },
    }
}

/// The options a node is started with. An absent option leaves the choice to
/// whatever the options are merged over.
#[derive(Debug)]
pub struct ConfigOption {
    pub path: Option<String>,
    pub external_rpc_url: Option<String>,
    pub internal_rpc_url: Option<String>,
    pub cluster_rpc_url: Option<String>,
    pub seed_cluster_rpc_url: Option<String>,
    pub radius_foundation_address: Option<String>,
    pub chain_type: Option<String>,
    pub partial_key_generation_cycle: Option<u64>,
    pub partial_key_aggregation_cycle: Option<u64>,
}

/// `over` where it is present, else `base`.
pub open spec fn overlay<T>(base: Option<T>, over: Option<T>) -> Option<T> {
    if over is Some {
        over
    } else {
        base
    }
}

fn overlay_string(base: Option<String>, over: &Option<String>) -> (r: Option<String>)
    ensures
        r == overlay(base, *over),
{
    match over {
        Some(s) => Some(s.clone()),
        None => base,
    }
}

fn overlay_u64(base: Option<u64>, over: &Option<u64>) -> (r: Option<u64>)
    ensures
        r == overlay(base, *over),
{
    match over {
        Some(v) => Some(*v),
        None => base,
    }
}

impl ConfigOption {
    /// Whether these are the options of a node that was told nothing, with the
    /// configuration directory at `path`.
    pub open spec fn is_default(&self, path: Seq<char>) -> bool {
        let c = *self;
        {
                &&& c.path is Some && c.path->0@ == path
                &&& c.external_rpc_url is Some && c.external_rpc_url->0@
                    == DEFAULT_EXTERNAL_RPC_URL@
                &&& c.internal_rpc_url is Some && c.internal_rpc_url->0@
                    == DEFAULT_INTERNAL_RPC_URL@
                &&& c.cluster_rpc_url is Some && c.cluster_rpc_url->0@ == DEFAULT_CLUSTER_RPC_URL@
                &&& c.seed_cluster_rpc_url is None
                &&& c.radius_foundation_address is Some && c.radius_foundation_address->0@
                    == DEFAULT_RADIUS_FOUNDATION_ADDRESS@
                &&& c.chain_type is Some && c.chain_type->0@ == DEFAULT_CHAIN_TYPE@
                &&& c.partial_key_generation_cycle == Some(DEFAULT_PARTIAL_KEY_GENERATION_CYCLE)
                &&& c.partial_key_aggregation_cycle == Some(
                    DEFAULT_PARTIAL_KEY_AGGREGATION_CYCLE,
                )
        }
    }

    /// The default options, with the configuration directory at `path`.
    pub fn defaults(path: String) -> (r: Self)
        ensures
            r.is_default(path@),
    {
        ConfigOption {
            path: Some(path),
            external_rpc_url: Some(String::from_str(DEFAULT_EXTERNAL_RPC_URL)),
            internal_rpc_url: Some(String::from_str(DEFAULT_INTERNAL_RPC_URL)),
            cluster_rpc_url: Some(String::from_str(DEFAULT_CLUSTER_RPC_URL)),
            seed_cluster_rpc_url: None,
            radius_foundation_address: Some(String::from_str(DEFAULT_RADIUS_FOUNDATION_ADDRESS)),
            chain_type: Some(String::from_str(DEFAULT_CHAIN_TYPE)),
            partial_key_generation_cycle: Some(DEFAULT_PARTIAL_KEY_GENERATION_CYCLE),
            partial_key_aggregation_cycle: Some(DEFAULT_PARTIAL_KEY_AGGREGATION_CYCLE),
        }
    }

    /// The TOML template of these options: for each option but `path`, in the
    /// order of the fields, a comment line and the option's line.
    pub open spec fn toml_string(&self) -> Seq<char> {
        Seq::<char>::empty() + comment_line("Set external rpc url"@) + name_value_line(
            "external_rpc_url"@,
            value_text(self.external_rpc_url),
        ) + comment_line("Set internal rpc url"@) + name_value_line(
            "internal_rpc_url"@,
            value_text(self.internal_rpc_url),
        ) + comment_line("Set cluster rpc url"@) + name_value_line(
            "cluster_rpc_url"@,
            value_text(self.cluster_rpc_url),
        ) + comment_line("Set seed cluster rpc url"@) + name_value_line(
            "seed_cluster_rpc_url"@,
            value_text(self.seed_cluster_rpc_url),
        ) + comment_line("Set the radius foundation address"@) + name_value_line(
            "radius_foundation_address"@,
            value_text(self.radius_foundation_address),
        ) + comment_line(
            "Set the chain type (for verifying signature for foundation address)"@,
        ) + name_value_line("chain_type"@, value_text(self.chain_type)) + comment_line(
            "Set partial key generation cycle"@,
        ) + name_value_line(
            "partial_key_generation_cycle"@,
            value_text(self.partial_key_generation_cycle),
        ) + comment_line("Set partial key aggregation cycle"@) + name_value_line(
            "partial_key_aggregation_cycle"@,
            value_text(self.partial_key_aggregation_cycle),
        )
    }

    /// Renders the options as a TOML template.
    pub fn get_toml_string(&self) -> (r: String)
        ensures
            r@ == self.toml_string(),
    {
        let mut toml_string = String::new();

        set_toml_comment(&mut toml_string, "Set external rpc url");
        set_toml_name_value(&mut toml_string, "external_rpc_url", &self.external_rpc_url);

        set_toml_comment(&mut toml_string, "Set internal rpc url");
        set_toml_name_value(&mut toml_string, "internal_rpc_url", &self.internal_rpc_url);

        set_toml_comment(&mut toml_string, "Set cluster rpc url");
        set_toml_name_value(&mut toml_string, "cluster_rpc_url", &self.cluster_rpc_url);

        set_toml_comment(&mut toml_string, "Set seed cluster rpc url");
        set_toml_name_value(&mut toml_string, "seed_cluster_rpc_url", &self.seed_cluster_rpc_url);

        set_toml_comment(&mut toml_string, "Set the radius foundation address");
        set_toml_name_value(
            &mut toml_string,
            "radius_foundation_address",
            &self.radius_foundation_address,
        );

        set_toml_comment(
            &mut toml_string,
            "Set the chain type (for verifying signature for foundation address)",
        );
        set_toml_name_value(&mut toml_string, "chain_type", &self.chain_type);

        set_toml_comment(&mut toml_string, "Set partial key generation cycle");
        set_toml_name_value(
            &mut toml_string,
            "partial_key_generation_cycle",
            &self.partial_key_generation_cycle,
        );

        set_toml_comment(&mut toml_string, "Set partial key aggregation cycle");
        set_toml_name_value(
            &mut toml_string,
            "partial_key_aggregation_cycle",
            &self.partial_key_aggregation_cycle,
        );

        toml_string
    }

    /// These options with each one that `other` sets taken from `other`.
    pub open spec fn merged(self, other: ConfigOption) -> ConfigOption {
        ConfigOption {
            path: overlay(self.path, other.path),
            external_rpc_url: overlay(self.external_rpc_url, other.external_rpc_url),
            internal_rpc_url: overlay(self.internal_rpc_url, other.internal_rpc_url),
            cluster_rpc_url: overlay(self.cluster_rpc_url, other.cluster_rpc_url),
            seed_cluster_rpc_url: overlay(self.seed_cluster_rpc_url, other.seed_cluster_rpc_url),
            radius_foundation_address: overlay(
                self.radius_foundation_address,
                other.radius_foundation_address,
            ),
            chain_type: overlay(self.chain_type, other.chain_type),
            partial_key_generation_cycle: overlay(
                self.partial_key_generation_cycle,
                other.partial_key_generation_cycle,
            ),
            partial_key_aggregation_cycle: overlay(
                self.partial_key_aggregation_cycle,
                other.partial_key_aggregation_cycle,
            ),
        }
    }

    /// Lays `other` over these options: what `other` sets wins, the rest stays.
    pub fn merge(self, other: &ConfigOption) -> (r: Self)
        ensures
            r == self.merged(*other),
    {
        ConfigOption {
            path: overlay_string(self.path, &other.path),
            external_rpc_url: overlay_string(self.external_rpc_url, &other.external_rpc_url),
            internal_rpc_url: overlay_string(self.internal_rpc_url, &other.internal_rpc_url),
            cluster_rpc_url: overlay_string(self.cluster_rpc_url, &other.cluster_rpc_url),
            seed_cluster_rpc_url: overlay_string(
                self.seed_cluster_rpc_url,
                &other.seed_cluster_rpc_url,
            ),
            radius_foundation_address: overlay_string(
                self.radius_foundation_address,
                &other.radius_foundation_address,
            ),
            chain_type: overlay_string(self.chain_type, &other.chain_type),
            partial_key_generation_cycle: overlay_u64(
                self.partial_key_generation_cycle,
                &other.partial_key_generation_cycle,
            ),
            partial_key_aggregation_cycle: overlay_u64(
                self.partial_key_aggregation_cycle,
                &other.partial_key_aggregation_cycle,
            ),
        }
    }
}

} // verus!
