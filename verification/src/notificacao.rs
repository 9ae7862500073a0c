//! The course of one translation: what the interface is told, which
//! windows are shown, and when the provider is called.

use vstd::prelude::*;
use crate::captura::{janela_de, janela_do_destino, DestinoTraducao};
use crate::traducao::{ConfiguracaoProvedor, ProvedorVisto};

verus! {

/// An event sent to the window that shows the result.
pub enum EventoUi {
    /// `traducao-iniciada`: a capture is being translated.
    Iniciada { original: String },
    /// `traducao-erro`: the translation failed.
    Erro { erro: String },
    /// `nova-traducao`: the translation is ready.
    NovaTraducao { original: String, traduzido: String, idioma: String },
}

/// Something the caller has to do, in order.
pub enum AcaoFluxo {
    /// Send `evento` to the window labelled `janela` alone.
    Emitir { janela: &'static str, evento: EventoUi },
    /// Place the popover near `cursor`, show it and give it the focus.
    MostrarPopover { cursor: (i32, i32) },
    /// Read the provider settings from the store.
    LerConfiguracao,
    /// Call the provider to translate the text into the canonical `idioma`.
    Traduzir { config: ConfiguracaoProvedor, idioma: String },
    /// Show the main window.
    MostrarPrincipal,
    /// Give the main window the focus.
    FocarPrincipal,
}

/// What the caller reports back.
pub enum EventoFluxo {
    /// The translation starts.
    Inicio,
    /// The provider settings were read (or what is missing in them).
    ConfiguracaoLida(Result<(ConfiguracaoProvedor, String), String>),
    /// The provider answered with a translation or an error message.
    TraducaoConcluida(Result<String, String>),
    /// The main window was shown; `manter_no_topo` is the store's flag.
    PrincipalExibida { manter_no_topo: bool },
}

/// An interface event, as characters.
pub enum EventoUiVisto {
    Iniciada { original: Seq<char> },
    Erro { erro: Seq<char> },
    NovaTraducao { original: Seq<char>, traduzido: Seq<char>, idioma: Seq<char> },
}

/// An action, as characters.
pub enum AcaoVista {
    Emitir { janela: Seq<char>, evento: EventoUiVisto },
    MostrarPopover { cursor: (i32, i32) },
    LerConfiguracao,
    Traduzir { config: ProvedorVisto, idioma: Seq<char> },
    MostrarPrincipal,
    FocarPrincipal,
}

/// The characters of an interface event.
pub open spec fn vista_do_evento(e: EventoUi) -> EventoUiVisto {
    match e {
        EventoUi::Iniciada { original } => EventoUiVisto::Iniciada { original: original@ },
        EventoUi::Erro { erro } => EventoUiVisto::Erro { erro: erro@ },
        EventoUi::NovaTraducao { original, traduzido, idioma } => EventoUiVisto::NovaTraducao {
            original: original@,
            traduzido: traduzido@,
            idioma: idioma@,
        },
    }
}

/// The characters of an action.
pub open spec fn vista_da_acao(a: AcaoFluxo) -> AcaoVista {
    match a {
        AcaoFluxo::Emitir { janela, evento } => AcaoVista::Emitir {
            janela: janela@,
            evento: vista_do_evento(evento),
        },
        AcaoFluxo::MostrarPopover { cursor } => AcaoVista::MostrarPopover { cursor },
        AcaoFluxo::LerConfiguracao => AcaoVista::LerConfiguracao,
        AcaoFluxo::Traduzir { config, idioma } => AcaoVista::Traduzir {
            config: config@,
            idioma: idioma@,
        },
        AcaoFluxo::MostrarPrincipal => AcaoVista::MostrarPrincipal,
        AcaoFluxo::FocarPrincipal => AcaoVista::FocarPrincipal,
    }
}

/// The characters of a list of actions.
pub open spec fn vista_das_acoes(acoes: Seq<AcaoFluxo>) -> Seq<AcaoVista> {
    acoes.map_values(|a: AcaoFluxo| vista_da_acao(a))
}

/// The actions that follow `evento` in the translation of `texto` sent to
/// `destino`, once the canonical language `idioma` is known.
///
/// The start event goes out before anything else. The popover is shown
/// before the provider is called, so that its loading indicator is seen;
/// the main window is shown only once the translation succeeded, and gets
/// the focus only when it is not kept on top (it is visible anyway then,
/// and taking the focus would interrupt the user's typing).
pub open spec fn acoes_do_fluxo(
    destino: DestinoTraducao,
    texto: Seq<char>,
    idioma: Seq<char>,
    evento: EventoFluxo,
) -> Seq<AcaoVista> {
    let janela = janela_de(destino);
    match evento {
        EventoFluxo::Inicio => {
            let iniciada = AcaoVista::Emitir {
                janela,
                evento: EventoUiVisto::Iniciada { original: texto },
            };
            match destino {
                DestinoTraducao::Popover { cursor } => seq![
                    iniciada,
                    AcaoVista::MostrarPopover { cursor },
                    AcaoVista::LerConfiguracao,
                ],
                DestinoTraducao::Principal => seq![iniciada, AcaoVista::LerConfiguracao],
            }
        },
        EventoFluxo::ConfiguracaoLida(r) => match r {
            Ok((config, idioma_lido)) => seq![
                AcaoVista::Traduzir { config: config@, idioma: idioma_lido@ },
            ],
            Err(e) => seq![AcaoVista::Emitir { janela, evento: EventoUiVisto::Erro { erro: e@ } }],
        },
        EventoFluxo::TraducaoConcluida(r) => match r {
            Ok(traduzido) => {
                let nova = AcaoVista::Emitir {
                    janela,
                    evento: EventoUiVisto::NovaTraducao {
                        original: texto,
                        traduzido: traduzido@,
                        idioma,
                    },
                };
                match destino {
                    DestinoTraducao::Principal => seq![nova, AcaoVista::MostrarPrincipal],
                    DestinoTraducao::Popover { .. } => seq![nova],
                }
            },
            Err(e) => seq![AcaoVista::Emitir { janela, evento: EventoUiVisto::Erro { erro: e@ } }],
        },
        EventoFluxo::PrincipalExibida { manter_no_topo } => match destino {
            DestinoTraducao::Principal => if manter_no_topo {
                seq![]
            } else {
                seq![AcaoVista::FocarPrincipal]
            },
            DestinoTraducao::Popover { .. } => seq![],
        },
    }
}

/// The canonical language known after `evento`.
pub open spec fn idioma_apos(idioma: Seq<char>, evento: EventoFluxo) -> Seq<char> {
    match evento {
        EventoFluxo::ConfiguracaoLida(Ok((_, idioma_lido))) => idioma_lido@,
        _ => idioma,
    }
}

/// `a` sends nothing, or sends it to `janela`.
pub open spec fn emite_so_em(a: AcaoVista, janela: Seq<char>) -> bool {
    match a {
        AcaoVista::Emitir { janela: j, .. } => j == janela,
        _ => true,
    }
}

/// `a` shows or focuses the main window.
pub open spec fn mexe_na_principal(a: AcaoVista) -> bool {
    a is MostrarPrincipal || a is FocarPrincipal
}

/// The popover destination at `cursor`.
pub open spec fn no_popover(cursor: (i32, i32)) -> DestinoTraducao {
    DestinoTraducao::Popover { cursor }
}

/// Every event of a translation goes to the window of its destination
/// alone, whatever happens.
pub proof fn lei_eventos_so_na_janela_do_destino(
    destino: DestinoTraducao,
    texto: Seq<char>,
    idioma: Seq<char>,
    evento: EventoFluxo,
)
    ensures
        forall|i: int|
            0 <= i < acoes_do_fluxo(destino, texto, idioma, evento).len() ==> emite_so_em(
                #[trigger] acoes_do_fluxo(destino, texto, idioma, evento)[i],
                janela_de(destino),
            ),
{
}

/// The popover appears, with its loading indicator, before the provider is
/// called: it is shown at the start, before the settings are read, and
/// the provider is called only once the settings were read.
pub proof fn lei_popover_aparece_antes_da_chamada(
    cursor: (i32, i32),
    texto: Seq<char>,
    idioma: Seq<char>,
    destino: DestinoTraducao,
    evento: EventoFluxo,
)
    ensures
        acoes_do_fluxo(no_popover(cursor), texto, idioma, EventoFluxo::Inicio)[1] == (
        AcaoVista::MostrarPopover { cursor }),
        acoes_do_fluxo(no_popover(cursor), texto, idioma, EventoFluxo::Inicio)[2]
            == AcaoVista::LerConfiguracao,
        !(evento is ConfiguracaoLida) ==> forall|i: int|
            0 <= i < acoes_do_fluxo(destino, texto, idioma, evento).len()
                ==> !(#[trigger] acoes_do_fluxo(destino, texto, idioma, evento)[i] is Traduzir),
{
}

/// A translation shown in the popover never raises nor focuses the main
/// window.
pub proof fn lei_popover_nao_levanta_a_principal(
    cursor: (i32, i32),
    texto: Seq<char>,
    idioma: Seq<char>,
    evento: EventoFluxo,
)
    ensures
        forall|i: int|
            0 <= i < acoes_do_fluxo(no_popover(cursor), texto, idioma, evento).len()
                ==> !mexe_na_principal(
                #[trigger] acoes_do_fluxo(no_popover(cursor), texto, idioma, evento)[i],
            ),
{
}

/// With "keep on top" on, the main window is never given the focus after a
/// translation: it is visible above the others anyway.
pub proof fn lei_manter_no_topo_nao_rouba_o_foco(
    destino: DestinoTraducao,
    texto: Seq<char>,
    idioma: Seq<char>,
)
    ensures
        acoes_do_fluxo(destino, texto, idioma, (EventoFluxo::PrincipalExibida { manter_no_topo: true }))
            .len() == 0,
{
}

/// A finished translation produces exactly one interface event: the
/// result, or the error, and it comes first.
pub proof fn lei_um_desfecho_por_traducao(
    destino: DestinoTraducao,
    texto: Seq<char>,
    idioma: Seq<char>,
    r: Result<String, String>,
)
    ensures
        acoes_do_fluxo(destino, texto, idioma, EventoFluxo::TraducaoConcluida(r))[0] is Emitir,
        forall|i: int|
            1 <= i < acoes_do_fluxo(destino, texto, idioma, EventoFluxo::TraducaoConcluida(r)).len()
                ==> !(#[trigger] acoes_do_fluxo(
                destino,
                texto,
                idioma,
                EventoFluxo::TraducaoConcluida(r),
            )[i] is Emitir),
{
}

/// A translation for the main window shows it once the translation
/// succeeded, and then focuses it unless it is kept on top.
pub proof fn lei_principal_mostrada_apos_sucesso(
    texto: Seq<char>,
    idioma: Seq<char>,
    traduzido: String,
)
    ensures
        acoes_do_fluxo(
            DestinoTraducao::Principal,
            texto,
            idioma,
            EventoFluxo::TraducaoConcluida(Ok(traduzido)),
        ).len() == 2,
        acoes_do_fluxo(
            DestinoTraducao::Principal,
            texto,
            idioma,
            EventoFluxo::TraducaoConcluida(Ok(traduzido)),
        )[1] == AcaoVista::MostrarPrincipal,
        acoes_do_fluxo(
            DestinoTraducao::Principal,
            texto,
            idioma,
            (EventoFluxo::PrincipalExibida { manter_no_topo: false }),
        ) == seq![AcaoVista::FocarPrincipal],
{
}

/// What the events carry: the start carries the captured text; the
/// settings lead to calling the provider with the settings read; the
/// result carries the captured text, the translation and the language
/// read with the settings; an error carries its message.
pub proof fn lei_conteudo_dos_eventos(
    destino: DestinoTraducao,
    texto: Seq<char>,
    idioma: Seq<char>,
    config: ConfiguracaoProvedor,
    idioma_lido: String,
    traduzido: String,
    erro: String,
)
    ensures
        acoes_do_fluxo(destino, texto, idioma, EventoFluxo::Inicio)[0] == (AcaoVista::Emitir {
            janela: janela_de(destino),
            evento: EventoUiVisto::Iniciada { original: texto },
        }),
        acoes_do_fluxo(destino, texto, idioma, EventoFluxo::ConfiguracaoLida(Ok((config, idioma_lido))))
            == seq![(AcaoVista::Traduzir { config: config@, idioma: idioma_lido@ })],
        idioma_apos(idioma, EventoFluxo::ConfiguracaoLida(Ok((config, idioma_lido))))
            == idioma_lido@,
        acoes_do_fluxo(destino, texto, idioma_lido@, EventoFluxo::TraducaoConcluida(Ok(traduzido)))[0]
            == (AcaoVista::Emitir {
            janela: janela_de(destino),
            evento: EventoUiVisto::NovaTraducao {
                original: texto,
                traduzido: traduzido@,
                idioma: idioma_lido@,
            },
        }),
        acoes_do_fluxo(destino, texto, idioma, EventoFluxo::TraducaoConcluida(Err(erro))) == seq![
            (AcaoVista::Emitir {
                janela: janela_de(destino),
                evento: EventoUiVisto::Erro { erro: erro@ },
            }),
        ],
        acoes_do_fluxo(destino, texto, idioma, EventoFluxo::ConfiguracaoLida(Err(erro))) == seq![
            (AcaoVista::Emitir {
                janela: janela_de(destino),
                evento: EventoUiVisto::Erro { erro: erro@ },
            }),
        ],
        idioma_apos(idioma, EventoFluxo::ConfiguracaoLida(Err(erro))) == idioma,
{
}

/// One translation of a captured text, from the moment it is captured to
/// the moment its result is shown.
pub struct FluxoTraducao {
    pub destino: DestinoTraducao,
    /// The captured text.
    pub texto: String,
    /// The canonical target language, once the settings are read.
    pub idioma: String,
}

impl FluxoTraducao {
    /// The translation of `texto`, to be shown at `destino`.
    pub fn novo(destino: DestinoTraducao, texto: String) -> (r: Self)
        ensures
            r.destino == destino,
            r.texto@ == texto@,
            r.idioma@ == Seq::<char>::empty(),
    {
        FluxoTraducao { destino, texto, idioma: String::new() }
    }

    /// The actions that follow `evento`, shared by both global shortcuts
    /// and by the automatic mode: the provider is called and the interface
    /// is told about the start, the error or the result.
    pub fn avancar(&mut self, evento: EventoFluxo) -> (r: Vec<AcaoFluxo>)
        ensures
            vista_das_acoes(r@) == acoes_do_fluxo(
                old(self).destino,
                old(self).texto@,
                old(self).idioma@,
                evento,
            ),
            final(self).destino == old(self).destino,
            final(self).texto@ == old(self).texto@,
            final(self).idioma@ == idioma_apos(old(self).idioma@, evento),
    {
        let janela = janela_do_destino(self.destino);
        let mut acoes: Vec<AcaoFluxo> = Vec::new();
        match evento {
            EventoFluxo::Inicio => {
                acoes.push(
                    AcaoFluxo::Emitir {
                        janela,
                        evento: EventoUi::Iniciada { original: self.texto.clone() },
                    },
                );
                if let DestinoTraducao::Popover { cursor } = self.destino {
                    acoes.push(AcaoFluxo::MostrarPopover { cursor });
                }
                acoes.push(AcaoFluxo::LerConfiguracao);
            },
            EventoFluxo::ConfiguracaoLida(r) => match r {
                Ok((config, idioma)) => {
                    self.idioma = idioma.clone();
                    acoes.push(AcaoFluxo::Traduzir { config, idioma });
                },
                Err(erro) => {
                    acoes.push(AcaoFluxo::Emitir { janela, evento: EventoUi::Erro { erro } });
                },
            },
            EventoFluxo::TraducaoConcluida(r) => match r {
                Ok(traduzido) => {
                    acoes.push(
                        AcaoFluxo::Emitir {
                            janela,
                            evento: EventoUi::NovaTraducao {
                                original: self.texto.clone(),
                                traduzido,
                                idioma: self.idioma.clone(),
                            },
                        },
                    );
                    if let DestinoTraducao::Principal = self.destino {
                        acoes.push(AcaoFluxo::MostrarPrincipal);
                    }
                },
                Err(erro) => {
                    acoes.push(AcaoFluxo::Emitir { janela, evento: EventoUi::Erro { erro } });
                },
            },
            EventoFluxo::PrincipalExibida { manter_no_topo } => {
                if let DestinoTraducao::Principal = self.destino {
                    if !manter_no_topo {
                        acoes.push(AcaoFluxo::FocarPrincipal);
                    }
                }
            },
        }
        assert(vista_das_acoes(acoes@) =~= acoes_do_fluxo(
            old(self).destino,
            old(self).texto@,
            old(self).idioma@,
            evento,
        ));
        acoes
    }
}

} // verus!
