use crate::attributes::{attributes_of, AttributeList};
use crate::property_map::ComponentPropertyId;
use vstd::prelude::*;

verus! {

/// cssparser's parser, handed to the function that reads one value.
#[verifier::external_type_specification]
#[verifier::external_body]
pub struct ExCssParser<'i>(cssparser::Parser<'i>);

/// cssparser's `Parser::parse_entirely`, on a parser over the whole of `css`:
/// `parse_value` reads the value, and the call fails with the error of
/// `parse_value`, or when input is left after the value. What `parse_value`
/// reads is up to it, so the contract says nothing of the result.
#[verifier::external_body]
fn parse_entirely<V, F>(css: &str, parse_value: F) -> (res: Result<V, String>) where
    F: for<'i> FnOnce(&mut cssparser::Parser<'i>) -> Result<V, String>,
{
    let mut parser = cssparser::Parser::new(css);
    let parsed: Result<V, cssparser::ParseError<String>> = parser.parse_entirely(
        |p| parse_value(p).map_err(cssparser::ParseError::<String>::custom),
    );
    parsed.map_err(|err| err.to_string())
}

/// The report of an error met while parsing the tokens `tokens_css`: it quotes
/// the tokens, then gives the parser's message.
pub open spec fn var_tokens_report(tokens_css: Seq<char>, message: Seq<char>) -> Seq<char> {
    "tokens `"@ + tokens_css + "`: "@ + message
}

/// The report of an error met while parsing the tokens `tokens_css`.
pub fn var_tokens_error_report(tokens_css: &str, message: &str) -> (res: String)
    ensures
        res@ == var_tokens_report(tokens_css@, message@),
{
    let mut report = String::new();
    report.append("tokens `");
    report.append(tokens_css);
    report.append("`: ");
    report.append(message);
    proof {
        reveal_strlit("tokens `");
        reveal_strlit("`: ");
        assert(report@ =~= var_tokens_report(tokens_css@, message@));
    }
    report
}

/// Parses the text of the tokens a `var()` reference stands for as one value of
/// the property `property_id`: `parse_value` reads the value, no input may be
/// left after it, and the value is set on that property alone. A failure is
/// answered with a report that quotes the tokens.
pub fn dynamic_parse_var_tokens<V, F>(
    property_id: ComponentPropertyId,
    tokens_css: &str,
    parse_value: F,
) -> (res: Result<Vec<(ComponentPropertyId, V)>, String>) where
    F: for<'i> FnOnce(&mut cssparser::Parser<'i>) -> Result<V, String>,

    ensures
        res matches Ok(p) ==> p@.len() == 1 && p@[0].0 == property_id,
        res matches Err(report) ==> exists|message: Seq<char>|
            report@ == #[trigger] var_tokens_report(tokens_css@, message),
{
    let parsed = match parse_entirely(tokens_css, parse_value) {
        Ok(v) => Ok(v),
        Err(message) => {
            let report = var_tokens_error_report(tokens_css, message.as_str());
            assert(report@ == var_tokens_report(tokens_css@, message@));
            Err(report)
        },
    };
    var_tokens_result(property_id, parsed)
}

/// What the tokens of a `var()` reference parse to, for the property
/// `property_id`: the parsed value set on that property alone, or the parse
/// error unchanged.
pub fn var_tokens_result<V>(property_id: ComponentPropertyId, parsed: Result<V, String>) -> (res:
    Result<Vec<(ComponentPropertyId, V)>, String>)
    ensures
        match parsed {
            Ok(v) => res matches Ok(p) && p@ == seq![(property_id, v)],
            Err(m) => res == Err::<Vec<(ComponentPropertyId, V)>, String>(m),
        },
{
    match parsed {
        Ok(v) => {
            let mut values: Vec<(ComponentPropertyId, V)> = Vec::new();
            values.push((property_id, v));
            proof {
                assert(values@ =~= seq![(property_id, v)]);
            }
            Ok(values)
        },
        Err(m) => Err(m),
    }
}

/// The custom properties (`--name: tokens`) defined for an entity: each name
/// with the CSS text of its tokens.
#[derive(Clone)]
pub struct StyleVars {
    vars: AttributeList,
}

impl View for StyleVars {
    type V = Map<Seq<char>, Seq<char>>;

    closed spec fn view(&self) -> Map<Seq<char>, Seq<char>> {
        self.vars@
    }
}

impl Default for StyleVars {
    /// No custom property.
    fn default() -> (res: Self)
        ensures
            res@ == Map::<Seq<char>, Seq<char>>::empty(),
    {
        StyleVars::new()
    }
}

impl StyleVars {
    /// No custom property.
    pub fn new() -> (res: Self)
        ensures
            res@ == Map::<Seq<char>, Seq<char>>::empty(),
    {
        StyleVars { vars: AttributeList::new() }
    }

    /// The tokens of the custom property `name`, if it is defined.
    pub fn get_var(&self, name: &str) -> (res: Option<&str>)
        ensures
            match res {
                Some(tokens) => self@.contains_key(name@) && tokens@ == self@[name@],
                None => !self@.contains_key(name@),
            },
    {
        self.vars.get_attribute(name)
    }

    /// Replaces the custom properties with `new_vars`, a later pair of a name
    /// overriding an earlier one. Returns whether they changed.
    pub fn replace_vars(&mut self, new_vars: &[(&str, &str)]) -> (res: bool)
        ensures
            final(self)@ == attributes_of(new_vars@.map_values(|p: (&str, &str)| (p.0@, p.1@))),
            res == (final(self)@ != old(self)@),
    {
        let new_vars = AttributeList::from_pairs(new_vars);
        if !new_vars.same_attributes(&self.vars) {
            self.vars = new_vars;
            true
        } else {
            false
        }
    }
}

} // verus!
