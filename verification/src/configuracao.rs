//! Values read from the settings store (`config.json`).

use vstd::prelude::*;

verus! {

/// A value of the settings store, as far as the app reads it: a boolean,
/// a text, or anything else (a number, a list, an object, null).
#[derive(Debug)]
pub enum ValorArmazenado {
    Booleano(bool),
    Texto(String),
    Outro,
}

/// The flag a stored value stands for: only a stored `true` is on.
pub open spec fn flag_ligada(valor: Option<ValorArmazenado>) -> bool {
    match valor {
        Some(ValorArmazenado::Booleano(b)) => b,
        _ => false,
    }
}

/// The text a stored value stands for: a non-empty stored text.
pub open spec fn texto_util(valor: Option<ValorArmazenado>) -> Option<Seq<char>> {
    match valor {
        Some(ValorArmazenado::Texto(s)) => if s@.len() > 0 {
            Some(s@)
        } else {
            None
        },
        _ => None,
    }
}

/// A saved text, or `padrao` when none is saved.
pub open spec fn texto_ou_padrao(valor: Option<ValorArmazenado>, padrao: Seq<char>) -> Seq<char> {
    match texto_util(valor) {
        Some(s) => s,
        None => padrao,
    }
}

/// A flag is on exactly when the stored value is the boolean `true`: absent
/// or of another type counts as off.
pub proof fn lei_flag_ligada(valor: Option<ValorArmazenado>)
    ensures
        flag_ligada(valor) <==> (valor matches Some(ValorArmazenado::Booleano(b)) && b),
{
}

/// A stored text counts exactly when it is a non-empty text, and then it
/// is that text.
pub proof fn lei_texto_util(valor: Option<ValorArmazenado>)
    ensures
        texto_util(valor) is Some <==> (valor matches Some(ValorArmazenado::Texto(s)) && s@.len()
            > 0),
        valor matches Some(ValorArmazenado::Texto(s)) ==> (s@.len() > 0 ==> texto_util(valor)
            == Some(s@)),
{
}

/// Reads an optional boolean of the store. Absent, or of another type,
/// counts as off, which is safer than assuming on. Used for every boolean
/// flag of the store (automatic mode, keep on top, popover).
pub fn interpretar_booleano_store(valor: Option<ValorArmazenado>) -> (r: bool)
    ensures
        r == flag_ligada(valor),
{
    match valor {
        Some(ValorArmazenado::Booleano(b)) => b,
        _ => false,
    }
}

/// Reads an optional text of the store: absent, of another type or empty
/// counts as not set.
pub fn ler_texto(valor: Option<ValorArmazenado>) -> (r: Option<String>)
    ensures
        match r {
            Some(s) => texto_util(valor) == Some(s@),
            None => texto_util(valor) is None,
        },
{
    match valor {
        Some(ValorArmazenado::Texto(s)) => {
            if s.as_str().is_empty() {
                None
            } else {
                Some(s)
            }
        },
        _ => None,
    }
}

} // verus!
