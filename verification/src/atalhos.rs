//! The global shortcuts and the tray menu.

use vstd::prelude::*;
use crate::texto::mesmo_texto;
use crate::configuracao::{
    flag_ligada, interpretar_booleano_store, ler_texto, texto_ou_padrao, ValorArmazenado,
};

verus! {

/// The shortcut used while none is saved (first run).
pub open spec fn atalho_padrao() -> Seq<char> {
    "CommandOrControl+Alt+T"@
}

/// The popover shortcut used while none is saved.
pub open spec fn atalho_popover_padrao() -> Seq<char> {
    "CommandOrControl+Alt+P"@
}

/// The saved main shortcut (the store's `atalho`), or the default.
pub fn atalho_salvo(valor: Option<ValorArmazenado>) -> (r: String)
    ensures
        r@ == texto_ou_padrao(valor, atalho_padrao()),
{
    match ler_texto(valor) {
        Some(s) => s,
        None => String::from_str("CommandOrControl+Alt+T"),
    }
}

/// The saved popover shortcut (the store's `atalho_popover`), or the default.
pub fn atalho_popover_salvo(valor: Option<ValorArmazenado>) -> (r: String)
    ensures
        r@ == texto_ou_padrao(valor, atalho_popover_padrao()),
{
    match ler_texto(valor) {
        Some(s) => s,
        None => String::from_str("CommandOrControl+Alt+P"),
    }
}

/// The popover comes disabled, like the automatic mode: the user turns it
/// on in the settings (the store's `popover_ativo`).
pub fn popover_ativo(valor: Option<ValorArmazenado>) -> (r: bool)
    ensures
        r == flag_ligada(valor),
{
    interpretar_booleano_store(valor)
}

/// What a global shortcut does when pressed.
#[derive(Clone, Copy, Debug, PartialEq, Eq, Structural)]
pub enum AcaoAtalho {
    /// Capture the selection and show the translation in the main window.
    CapturarPrincipal,
    /// Capture the selection and show the translation in the popover.
    CapturarPopover,
}

/// The shortcuts to register, in order: the main one always, the popover
/// one only while the popover is enabled.
pub open spec fn atalhos_do_plano(
    atalho: Option<ValorArmazenado>,
    popover: Option<ValorArmazenado>,
    atalho_popover: Option<ValorArmazenado>,
) -> Seq<(Seq<char>, AcaoAtalho)> {
    let principal = seq![(texto_ou_padrao(atalho, atalho_padrao()), AcaoAtalho::CapturarPrincipal)];
    if flag_ligada(popover) {
        principal.push(
            (texto_ou_padrao(atalho_popover, atalho_popover_padrao()), AcaoAtalho::CapturarPopover),
        )
    } else {
        principal
    }
}

/// The plan starts with the main shortcut, the saved non-empty `atalho`
/// text or the default one; it holds a popover shortcut exactly when the
/// stored popover flag is the boolean `true`, and then holds just two.
pub proof fn lei_plano_de_atalhos(
    atalho: Option<ValorArmazenado>,
    popover: Option<ValorArmazenado>,
    atalho_popover: Option<ValorArmazenado>,
)
    ensures
        atalhos_do_plano(atalho, popover, atalho_popover).len() >= 1,
        atalhos_do_plano(atalho, popover, atalho_popover)[0].1 == AcaoAtalho::CapturarPrincipal,
        (exists|i: int|
            0 <= i < atalhos_do_plano(atalho, popover, atalho_popover).len() && #[trigger] atalhos_do_plano(
                atalho,
                popover,
                atalho_popover,
            )[i].1 == AcaoAtalho::CapturarPopover) <==> (popover matches Some(
            ValorArmazenado::Booleano(b),
        ) && b),
        !(popover matches Some(ValorArmazenado::Booleano(b)) && b) ==> atalhos_do_plano(
            atalho,
            popover,
            atalho_popover,
        ).len() == 1,
        (popover matches Some(ValorArmazenado::Booleano(b)) && b) ==> atalhos_do_plano(
            atalho,
            popover,
            atalho_popover,
        ).len() == 2,
        atalho matches Some(ValorArmazenado::Texto(s)) ==> (s@.len() > 0 ==> atalhos_do_plano(
            atalho,
            popover,
            atalho_popover,
        )[0].0 == s@),
        !(atalho matches Some(ValorArmazenado::Texto(s)) && s@.len() > 0) ==> atalhos_do_plano(
            atalho,
            popover,
            atalho_popover,
        )[0].0 == "CommandOrControl+Alt+T"@,
{
    let plano = atalhos_do_plano(atalho, popover, atalho_popover);
    if popover matches Some(ValorArmazenado::Booleano(b)) && b {
        assert(plano[1].1 == AcaoAtalho::CapturarPopover);
    }
}

/// The popover shortcut, when the plan holds one, is the saved non-empty
/// `atalho_popover` text or the default one.
pub proof fn lei_atalho_do_popover(
    atalho: Option<ValorArmazenado>,
    atalho_popover: Option<ValorArmazenado>,
)
    ensures
        atalho_popover matches Some(ValorArmazenado::Texto(s)) ==> (s@.len() > 0
            ==> atalhos_do_plano(atalho, Some(ValorArmazenado::Booleano(true)), atalho_popover)[1]
            == (s@, AcaoAtalho::CapturarPopover)),
        !(atalho_popover matches Some(ValorArmazenado::Texto(s)) && s@.len() > 0)
            ==> atalhos_do_plano(atalho, Some(ValorArmazenado::Booleano(true)), atalho_popover)[1]
            == ("CommandOrControl+Alt+P"@, AcaoAtalho::CapturarPopover),
{
}

/// The characters of each shortcut of a plan, with its action.
pub open spec fn vista_do_plano(plano: Seq<(String, AcaoAtalho)>) -> Seq<(Seq<char>, AcaoAtalho)> {
    plano.map_values(|p: (String, AcaoAtalho)| (p.0@, p.1))
}

/// The shortcuts to register again after unregistering every global
/// shortcut of the process. Both are rebuilt together because unregistering
/// removes all of them, not just one: updating one shortcut alone would
/// silently drop the other.
pub fn plano_de_atalhos(
    atalho: Option<ValorArmazenado>,
    popover: Option<ValorArmazenado>,
    atalho_popover: Option<ValorArmazenado>,
) -> (r: Vec<(String, AcaoAtalho)>)
    ensures
        vista_do_plano(r@) == atalhos_do_plano(atalho, popover, atalho_popover),
{
    let mut plano: Vec<(String, AcaoAtalho)> = Vec::new();
    plano.push((atalho_salvo(atalho), AcaoAtalho::CapturarPrincipal));
    if popover_ativo(popover) {
        plano.push((atalho_popover_salvo(atalho_popover), AcaoAtalho::CapturarPopover));
    }
    assert(vista_do_plano(plano@) =~= atalhos_do_plano(atalho, popover, atalho_popover));
    plano
}

/// What an item of the tray menu does.
#[derive(Clone, Copy, Debug, PartialEq, Eq, Structural)]
pub enum AcaoMenu {
    /// Bring the main window to the front.
    Abrir,
    /// Quit the app.
    Sair,
    /// Nothing.
    Nenhuma,
}

/// The action of the tray menu item `id`.
pub open spec fn acao_de_item(id: Seq<char>) -> AcaoMenu {
    if id == "abrir"@ {
        AcaoMenu::Abrir
    } else if id == "sair"@ {
        AcaoMenu::Sair
    } else {
        AcaoMenu::Nenhuma
    }
}

/// The item `abrir` opens the main window, `sair` quits, any other item
/// does nothing.
pub proof fn lei_menu_da_bandeja(id: Seq<char>)
    ensures
        id == "abrir"@ ==> acao_de_item(id) == AcaoMenu::Abrir,
        id == "sair"@ ==> acao_de_item(id) == AcaoMenu::Sair,
        id != "abrir"@ && id != "sair"@ ==> acao_de_item(id) == AcaoMenu::Nenhuma,
{
    reveal_strlit("abrir");
    reveal_strlit("sair");
    assert("abrir"@[0] != "sair"@[0]);
}

/// The tray menu has "Abrir" and "Sair": the app keeps running in the
/// background with its window closed.
pub fn acao_do_menu(id: &str) -> (r: AcaoMenu)
    ensures
        r == acao_de_item(id@),
{
    if mesmo_texto(id, "abrir") {
        AcaoMenu::Abrir
    } else if mesmo_texto(id, "sair") {
        AcaoMenu::Sair
    } else {
        AcaoMenu::Nenhuma
    }
}

} // verus!
