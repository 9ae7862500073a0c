//! Capturing the selected text: deciding whether the clipboard holds
//! something new, the keystrokes that copy the selection, the automatic
//! clipboard monitor, and the window that shows each result.

use vstd::prelude::*;
use crate::texto::{espaco_unicode, mesmo_texto, so_espacos, so_espacos_em};

verus! {

/// The text read from the clipboard is new: it holds something besides
/// whitespace and differs from what the clipboard held before.
pub open spec fn ha_texto_novo(original: Seq<char>, capturado: Seq<char>) -> bool {
    !so_espacos(capturado) && capturado != original
}

/// A captured text is new exactly when it holds some non-whitespace
/// character and differs from what the clipboard held before.
pub proof fn lei_texto_novo(original: Seq<char>, capturado: Seq<char>)
    ensures
        ha_texto_novo(original, capturado) <==> ((exists|i: int|
            0 <= i < capturado.len() && !espaco_unicode(#[trigger] capturado[i])) && capturado
            != original),
{
}

/// Decides whether the text read from the clipboard is really new, and not
/// just what was already there before, or an empty or blank selection.
pub fn houve_novo_texto(clipboard_original: &str, clipboard_capturado: &str) -> (r: bool)
    ensures
        r == ha_texto_novo(clipboard_original@, clipboard_capturado@),
        r <==> ((exists|i: int|
            0 <= i < clipboard_capturado@.len() && !espaco_unicode(
                #[trigger] clipboard_capturado@[i],
            )) && clipboard_capturado@ != clipboard_original@),
{
    proof {
        lei_texto_novo(clipboard_original@, clipboard_capturado@);
    }
    !so_espacos_em(clipboard_capturado) && !mesmo_texto(clipboard_capturado, clipboard_original)
}

/// The window labels of the two destinations: results of the main shortcut
/// go to `main`, those of the popover shortcut to `popover`, wherever the
/// cursor was.
pub proof fn lei_janelas_dos_destinos(cursor: (i32, i32))
    ensures
        janela_de(DestinoTraducao::Principal) == "main"@,
        janela_de(no_cursor(cursor)) == "popover"@,
        janela_de(DestinoTraducao::Principal) != janela_de(no_cursor(cursor)),
{
    reveal_strlit("main");
    reveal_strlit("popover");
}

/// The popover destination at `cursor`.
pub open spec fn no_cursor(cursor: (i32, i32)) -> DestinoTraducao {
    DestinoTraducao::Popover { cursor }
}

/// Where the result of a translation goes: the main window, or the popover
/// near the cursor. `Popover` carries the cursor position at the moment of
/// the capture: the cursor cannot be read again when the translation ends,
/// since the user may have moved the mouse by then.
#[derive(Clone, Copy, Debug)]
pub enum DestinoTraducao {
    Principal,
    Popover { cursor: (i32, i32) },
}

/// The label of the window that shows the results sent to `destino`.
pub open spec fn janela_de(destino: DestinoTraducao) -> Seq<char> {
    match destino {
        DestinoTraducao::Principal => "main"@,
        DestinoTraducao::Popover { .. } => "popover"@,
    }
}

/// The window label for a destination. Events are sent to that window
/// alone, so the popover does not react to translations started by the
/// main shortcut, nor the other way round.
pub fn janela_do_destino(destino: DestinoTraducao) -> (r: &'static str)
    ensures
        r@ == janela_de(destino),
{
    match destino {
        DestinoTraducao::Principal => "main",
        DestinoTraducao::Popover { .. } => "popover",
    }
}

/// The operating system the keystrokes are simulated on.
#[derive(Clone, Copy, Debug, PartialEq, Eq, Structural)]
pub enum Plataforma {
    Windows,
    Outra,
}

/// Windows virtual-key code of the C key (`VK_C`).
pub const VK_C: u32 = 0x43;

/// A key the capture presses or releases.
#[derive(Clone, Copy, Debug, PartialEq, Eq, Structural)]
pub enum TeclaSimulada {
    Alt,
    Shift,
    Control,
    /// A platform key code: a Windows virtual key, an X11 keysym elsewhere.
    Outra(u32),
    /// The key that types this character.
    Unicode(char),
}

/// What happens to a key.
#[derive(Clone, Copy, Debug, PartialEq, Eq, Structural)]
pub enum DirecaoTecla {
    Pressionar,
    Soltar,
    Clicar,
}

/// One step of a simulated keyboard sequence.
#[derive(Clone, Copy, Debug, PartialEq, Eq, Structural)]
pub enum PassoTeclado {
    Tecla(TeclaSimulada, DirecaoTecla),
    /// Wait this many milliseconds.
    Pausa(u64),
}

/// The key sent as the "C" of Ctrl+C on `plataforma`.
pub open spec fn tecla_de_copiar(plataforma: Plataforma) -> TeclaSimulada {
    match plataforma {
        Plataforma::Windows => TeclaSimulada::Outra(VK_C),
        Plataforma::Outra => TeclaSimulada::Unicode('c'),
    }
}

/// The key sent as the "C" of Ctrl+C. On Windows it has to be the virtual
/// key `VK_C`: the Unicode mode there types the character and ignores the
/// Ctrl held down. Elsewhere a key code is an X11 keysym, and `0x43` is the
/// keysym of an upper-case C, which would make Ctrl+Shift+C; the lower-case
/// character resolves to the right keysym without Shift.
pub fn tecla_copiar(plataforma: Plataforma) -> (r: TeclaSimulada)
    ensures
        r == tecla_de_copiar(plataforma),
{
    match plataforma {
        Plataforma::Windows => TeclaSimulada::Outra(VK_C),
        Plataforma::Outra => TeclaSimulada::Unicode('c'),
    }
}

/// The keystrokes that copy the selection: release the modifiers of the
/// global shortcut that may still be held, wait, then Ctrl+C, then wait
/// for the target application to fill the clipboard.
pub open spec fn passos_de_copiar(plataforma: Plataforma) -> Seq<PassoTeclado> {
    seq![
        PassoTeclado::Tecla(TeclaSimulada::Alt, DirecaoTecla::Soltar),
        PassoTeclado::Tecla(TeclaSimulada::Shift, DirecaoTecla::Soltar),
        PassoTeclado::Tecla(TeclaSimulada::Control, DirecaoTecla::Soltar),
        PassoTeclado::Pausa(50),
        PassoTeclado::Tecla(TeclaSimulada::Control, DirecaoTecla::Pressionar),
        PassoTeclado::Tecla(tecla_de_copiar(plataforma), DirecaoTecla::Clicar),
        PassoTeclado::Tecla(TeclaSimulada::Control, DirecaoTecla::Soltar),
        PassoTeclado::Pausa(250),
    ]
}

/// The copy sequence releases Alt, Shift and Control before anything is
/// pressed, presses Control, clicks the platform's C key (the virtual key
/// `0x43` on Windows, the character `c` elsewhere) and releases Control.
pub proof fn lei_roteiro_de_copiar(plataforma: Plataforma)
    ensures
        passos_de_copiar(plataforma).len() == 8,
        passos_de_copiar(plataforma)[0] == PassoTeclado::Tecla(TeclaSimulada::Alt, DirecaoTecla::Soltar),
        passos_de_copiar(plataforma)[1] == PassoTeclado::Tecla(TeclaSimulada::Shift, DirecaoTecla::Soltar),
        passos_de_copiar(plataforma)[2] == PassoTeclado::Tecla(
            TeclaSimulada::Control,
            DirecaoTecla::Soltar,
        ),
        passos_de_copiar(plataforma)[4] == PassoTeclado::Tecla(
            TeclaSimulada::Control,
            DirecaoTecla::Pressionar,
        ),
        plataforma == Plataforma::Windows ==> passos_de_copiar(plataforma)[5] == PassoTeclado::Tecla(
            TeclaSimulada::Outra(0x43),
            DirecaoTecla::Clicar,
        ),
        plataforma == Plataforma::Outra ==> passos_de_copiar(plataforma)[5] == PassoTeclado::Tecla(
            TeclaSimulada::Unicode('c'),
            DirecaoTecla::Clicar,
        ),
        passos_de_copiar(plataforma)[6] == PassoTeclado::Tecla(
            TeclaSimulada::Control,
            DirecaoTecla::Soltar,
        ),
        forall|i: int|
            0 <= i < 4 ==> !(#[trigger] passos_de_copiar(plataforma)[i] matches PassoTeclado::Tecla(
                _,
                DirecaoTecla::Pressionar,
            )),
{
}

/// The sequence that simulates Ctrl+C. When the global shortcut fires, its
/// physical keys (Ctrl+Alt+T, say) may still be down; without releasing the
/// modifiers first the target application would get Ctrl+Alt+C.
pub fn roteiro_copiar(plataforma: Plataforma) -> (r: Vec<PassoTeclado>)
    ensures
        r@ == passos_de_copiar(plataforma),
{
    let mut passos: Vec<PassoTeclado> = Vec::new();
    passos.push(PassoTeclado::Tecla(TeclaSimulada::Alt, DirecaoTecla::Soltar));
    passos.push(PassoTeclado::Tecla(TeclaSimulada::Shift, DirecaoTecla::Soltar));
    passos.push(PassoTeclado::Tecla(TeclaSimulada::Control, DirecaoTecla::Soltar));
    passos.push(PassoTeclado::Pausa(50));
    passos.push(PassoTeclado::Tecla(TeclaSimulada::Control, DirecaoTecla::Pressionar));
    passos.push(PassoTeclado::Tecla(tecla_copiar(plataforma), DirecaoTecla::Clicar));
    passos.push(PassoTeclado::Tecla(TeclaSimulada::Control, DirecaoTecla::Soltar));
    passos.push(PassoTeclado::Pausa(250));
    assert(passos@ =~= passos_de_copiar(plataforma));
    passos
}

/// The characters of an optional text.
pub open spec fn texto_opcional(t: Option<String>) -> Option<Seq<char>> {
    match t {
        Some(s) => Some(s@),
        None => None,
    }
}

/// One check of the automatic mode, given the last value seen and what was
/// read from the clipboard (`None` when the read failed): the text to
/// translate, if there is one. Nothing is translated while the mode is off.
pub open spec fn texto_do_monitor(
    ultimo: Seq<char>,
    modo_ativo: bool,
    leitura: Option<Seq<char>>,
) -> Option<Seq<char>> {
    match leitura {
        Some(atual) => if modo_ativo && ha_texto_novo(ultimo, atual) {
            Some(atual)
        } else {
            None
        },
        None => None,
    }
}

/// The value the automatic mode remembers after a check: the text it
/// translated, or the value it remembered before.
pub open spec fn ultimo_apos_leitura(
    ultimo: Seq<char>,
    modo_ativo: bool,
    leitura: Option<Seq<char>>,
) -> Seq<char> {
    match texto_do_monitor(ultimo, modo_ativo, leitura) {
        Some(atual) => atual,
        None => ultimo,
    }
}

/// The state of the automatic mode, which checks the clipboard
/// periodically and translates what is new in it.
pub struct MonitorAutomatico {
    /// The clipboard value last seen as new (or found at start).
    pub ultimo_valor: String,
}

impl MonitorAutomatico {
    /// Starts from what the clipboard already holds (empty when it cannot
    /// be read), so that the first check does not translate something the
    /// user copied before opening the app or turning the mode on.
    pub fn novo(leitura_inicial: Option<String>) -> (m: Self)
        ensures
            m.ultimo_valor@ == match leitura_inicial {
                Some(s) => s@,
                None => Seq::<char>::empty(),
            },
    {
        match leitura_inicial {
            Some(s) => MonitorAutomatico { ultimo_valor: s },
            None => MonitorAutomatico { ultimo_valor: String::new() },
        }
    }

    /// One check: returns the text to translate, if any, and remembers it.
    /// The mode is read at every check, so turning it on or off takes
    /// effect at the next one.
    pub fn processar_leitura(&mut self, modo_ativo: bool, leitura: Option<String>) -> (r: Option<
        String,
    >)
        ensures
            texto_opcional(r) == texto_do_monitor(
                old(self).ultimo_valor@,
                modo_ativo,
                texto_opcional(leitura),
            ),
            final(self).ultimo_valor@ == ultimo_apos_leitura(
                old(self).ultimo_valor@,
                modo_ativo,
                texto_opcional(leitura),
            ),
    {
        if !modo_ativo {
            return None;
        }
        match leitura {
            Some(atual) => {
                if houve_novo_texto(self.ultimo_valor.as_str(), atual.as_str()) {
                    self.ultimo_valor = atual.clone();
                    Some(atual)
                } else {
                    None
                }
            },
            None => None,
        }
    }
}

/// With the mode on, a read value is translated exactly when it holds some
/// non-whitespace character and differs from the value remembered; what is
/// translated is the value read, and it is then remembered.
pub proof fn lei_monitor_traduz_o_que_e_novo(ultimo: Seq<char>, atual: Seq<char>)
    ensures
        texto_do_monitor(ultimo, true, Some(atual)) is Some <==> ((exists|i: int|
            0 <= i < atual.len() && !espaco_unicode(#[trigger] atual[i])) && atual != ultimo),
        texto_do_monitor(ultimo, true, Some(atual)) is Some ==> texto_do_monitor(
            ultimo,
            true,
            Some(atual),
        ) == Some(atual) && ultimo_apos_leitura(ultimo, true, Some(atual)) == atual,
        texto_do_monitor(ultimo, true, Some(atual)) is None ==> ultimo_apos_leitura(
            ultimo,
            true,
            Some(atual),
        ) == ultimo,
        texto_do_monitor(ultimo, true, None) is None,
{
    lei_texto_novo(ultimo, atual);
}

/// While the automatic mode is off, a check translates nothing and
/// forgets nothing.
pub proof fn lei_monitor_desligado_nao_age(ultimo: Seq<char>, leitura: Option<Seq<char>>)
    ensures
        texto_do_monitor(ultimo, false, leitura) is None,
        ultimo_apos_leitura(ultimo, false, leitura) == ultimo,
{
}

/// A clipboard value is translated at most once in a row: after it was
/// translated, reading the same value again translates nothing.
pub proof fn lei_monitor_nao_repete(ultimo: Seq<char>, modo_ativo: bool, atual: Seq<char>)
    requires
        texto_do_monitor(ultimo, modo_ativo, Some(atual)) is Some,
    ensures
        texto_do_monitor(
            ultimo_apos_leitura(ultimo, modo_ativo, Some(atual)),
            modo_ativo,
            Some(atual),
        ) is None,
{
}

/// The automatic mode only translates text that holds something besides
/// whitespace.
pub proof fn lei_monitor_ignora_espacos(
    ultimo: Seq<char>,
    modo_ativo: bool,
    leitura: Option<Seq<char>>,
)
    ensures
        texto_do_monitor(ultimo, modo_ativo, leitura) matches Some(t) ==> !so_espacos(t),
{
}

} // verus!
