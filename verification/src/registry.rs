//! The model registry: interpreting the model listing and choosing a model.
//!
//! The listing tool prints one header line followed by one row per model;
//! the model identifier is the first whitespace-delimited token of each row.
//! Selection follows a fixed preference policy and is total: it always
//! yields an identifier, falling back to a terminal default.

use vstd::prelude::*;

use crate::config::PipelineConfig;
use crate::errors::RegistryError;
use crate::text::{char_is_ws, is_ws_char, lemma_split_on_len, split_on, split_str, trim_start,
    trim_start_spec};

verus! {

/// The run of non-whitespace characters that opens `s`.
pub open spec fn leading_token(s: Seq<char>) -> Seq<char>
    decreases s.len(),
{
    if s.len() == 0 || is_ws_char(s[0]) {
        Seq::<char>::empty()
    } else {
        seq![s[0]] + leading_token(s.skip(1))
    }
}

/// The first whitespace-delimited token of `line`; empty when the line
/// holds none.
pub open spec fn first_token(line: Seq<char>) -> Seq<char> {
    leading_token(trim_start_spec(line))
}

/// The nonempty first tokens of `lines`, in order.
pub open spec fn tokens_of(lines: Seq<Seq<char>>) -> Seq<Seq<char>>
    decreases lines.len(),
{
    if lines.len() == 0 {
        Seq::<Seq<char>>::empty()
    } else {
        let t = first_token(lines[0]);
        let rest = tokens_of(lines.skip(1));
        if t.len() > 0 {
            seq![t] + rest
        } else {
            rest
        }
    }
}

/// The model identifiers named by a listing: one header line skipped, then
/// the first token of each row.
pub open spec fn model_list_spec(output: Seq<char>) -> Seq<Seq<char>> {
    tokens_of(split_on(output, '\n').skip(1))
}

fn leading_token_exec(s: &str) -> (r: String)
    ensures
        r@ == leading_token(s@),
    decreases s@.len(),
{
    let n = s.unicode_len();
    if n == 0 {
        return String::new();
    }
    let c = s.get_char(0);
    if char_is_ws(c) {
        String::new()
    } else {
        let rest = s.substring_char(1, n);
        proof {
            assert(rest@ =~= s@.skip(1));
        }
        let tail = leading_token_exec(rest);
        let head = s.substring_char(0, 1);
        let mut out = head.to_owned();
        out.append(tail.as_str());
        proof {
            assert(out@ =~= seq![s@[0]] + leading_token(s@.skip(1)));
        }
        out
    }
}

fn tokens_from(lines: &Vec<String>, i: usize) -> (r: Vec<String>)
    requires
        i <= lines.len(),
    ensures
        r.deep_view() == tokens_of(lines.deep_view().skip(i as int)),
    decreases lines.len() - i,
{
    proof {
        assert(lines.deep_view().len() == lines.len());
    }
    if i == lines.len() {
        let v: Vec<String> = Vec::new();
        proof {
            assert(v.deep_view() =~~= tokens_of(lines.deep_view().skip(i as int)));
        }
        v
    } else {
        let t = leading_token_exec(trim_start((&lines[i]).as_str()));
        let mut rest = tokens_from(lines, i + 1);
        proof {
            let dv = lines.deep_view().skip(i as int);
            assert(dv[0] == lines.deep_view()[i as int]);
            assert(dv.skip(1) =~~= lines.deep_view().skip(i as int + 1));
        }
        if t.unicode_len() > 0 {
            rest.insert(0, t);
            proof {
                let dv = lines.deep_view().skip(i as int);
                assert(rest.deep_view() =~~= seq![first_token(dv[0])] + tokens_of(dv.skip(1)));
            }
            rest
        } else {
            rest
        }
    }
}

/// Interpret one run of the model-listing tool: a failed run means the
/// listing is unavailable, a successful one is parsed into identifiers.
pub fn interpret_model_listing(success: bool, output: &str) -> (r: Result<
    Vec<String>,
    RegistryError,
>)
    ensures
        !success ==> r == Err::<Vec<String>, RegistryError>(RegistryError::ModelListUnavailable),
        success ==> (r matches Ok(v) && v.deep_view() == model_list_spec(output@)),
{
    if !success {
        return Err(RegistryError::ModelListUnavailable);
    }
    let lines = split_str(output, '\n');
    proof {
        lemma_split_on_len(output@, '\n');
    }
    Ok(tokens_from(&lines, 1))
}

/// Whether `models` holds an identifier whose text is `m`.
fn contains_model(models: &Vec<String>, m: &String) -> (b: bool)
    ensures
        b == models.deep_view().contains(m@),
{
    let mut i: usize = 0;
    while i < models.len()
        invariant
            i <= models.len(),
            forall|j: int| 0 <= j < i ==> models.deep_view()[j] != m@,
        decreases models.len() - i,
    {
        if (&models[i]).eq(m) {
            proof {
                assert(models.deep_view()[i as int] == m@);
            }
            return true;
        }
        i += 1;
    }
    proof {
        if models.deep_view().contains(m@) {
            let j = choose|j: int| 0 <= j < models.deep_view().len() && models.deep_view()[j]
                == m@;
            assert(models.deep_view()[j] != m@);
        }
    }
    false
}

/// The fallback chain used when no usable preference is given: the fixed
/// default if installed, else the first listed model, else the terminal
/// last-resort identifier.
pub open spec fn fallback_spec(
    available: Seq<Seq<char>>,
    default_model: Seq<char>,
    last_resort: Seq<char>,
) -> Seq<char> {
    if available.contains(default_model) {
        default_model
    } else if available.len() > 0 {
        available[0]
    } else {
        last_resort
    }
}

/// The model the selection policy yields.
pub open spec fn select_model_spec(
    preferred: Option<Seq<char>>,
    available: Seq<Seq<char>>,
    default_model: Seq<char>,
    last_resort: Seq<char>,
) -> Seq<char> {
    match preferred {
        Some(p) => if available.contains(p) {
            p
        } else {
            fallback_spec(available, default_model, last_resort)
        },
        None => fallback_spec(available, default_model, last_resort),
    }
}

fn fallback(available: &Vec<String>, config: &PipelineConfig) -> (m: String)
    ensures
        m@ == fallback_spec(available.deep_view(), config.default_model@, config.last_resort@),
{
    if contains_model(available, &config.default_model) {
        config.default_model.clone()
    } else if available.len() > 0 {
        proof {
            assert(available.deep_view().len() == available.len());
        }
        (&available[0]).clone()
    } else {
        proof {
            assert(available.deep_view().len() == available.len());
        }
        config.last_resort.clone()
    }
}

/// Select a model: the preferred one when it is installed, otherwise the
/// fixed fallback chain. Deterministic and total.
pub fn select_model(preferred: Option<String>, available: &Vec<String>, config: &PipelineConfig)
    -> (m: String)
    ensures
        m@ == select_model_spec(
            preferred.deep_view(),
            available.deep_view(),
            config.default_model@,
            config.last_resort@,
        ),
{
    match preferred {
        Some(p) => {
            if contains_model(available, &p) {
                p
            } else {
                fallback(available, config)
            }
        },
        None => fallback(available, config),
    }
}

/// The selection policy, case by case: the preferred model exactly when it
/// is available; otherwise the default exactly when it is available;
/// otherwise the first listed model when any exists; otherwise the
/// last-resort identifier.
pub proof fn lemma_select_model_policy(
    preferred: Option<Seq<char>>,
    available: Seq<Seq<char>>,
    default_model: Seq<char>,
    last_resort: Seq<char>,
)
    ensures
        (preferred matches Some(p) && available.contains(p)) ==> select_model_spec(
            preferred,
            available,
            default_model,
            last_resort,
        ) == preferred.unwrap(),
        !(preferred matches Some(p) && available.contains(p)) && available.contains(default_model)
            ==> select_model_spec(preferred, available, default_model, last_resort)
            == default_model,
        !(preferred matches Some(p) && available.contains(p)) && !available.contains(default_model)
            && available.len() > 0 ==> select_model_spec(
            preferred,
            available,
            default_model,
            last_resort,
        ) == available[0],
        !(preferred matches Some(p) && available.contains(p)) && !available.contains(default_model)
            && available.len() == 0 ==> select_model_spec(
            preferred,
            available,
            default_model,
            last_resort,
        ) == last_resort,
{
}

/// Whether the selected model must be pulled before use: true exactly when
/// it is absent from the listing.
pub fn requires_pull(model: &String, available: &Vec<String>) -> (b: bool)
    ensures
        b == !available.deep_view().contains(model@),
{
    !contains_model(available, model)
}

/// Interpret the exit of the pull operation.
pub fn interpret_pull(success: bool) -> (r: Result<(), RegistryError>)
    ensures
        success ==> r is Ok,
        !success ==> r == Err::<(), RegistryError>(RegistryError::ModelPullFailed),
{
    if success {
        Ok(())
    } else {
        Err(RegistryError::ModelPullFailed)
    }
}

} // verus!
