use select_translate::captura::DestinoTraducao;
use select_translate::notificacao::{AcaoFluxo, EventoFluxo, EventoUi, FluxoTraducao};
use select_translate::traducao::ConfiguracaoProvedor;

fn descrever(acoes: &[AcaoFluxo]) -> Vec<String> {
    acoes
        .iter()
        .map(|a| match a {
            AcaoFluxo::Emitir { janela, evento } => match evento {
                EventoUi::Iniciada { original } => format!("{janela}:iniciada:{original}"),
                EventoUi::Erro { erro } => format!("{janela}:erro:{erro}"),
                EventoUi::NovaTraducao { original, traduzido, idioma } => {
                    format!("{janela}:nova:{original}:{traduzido}:{idioma}")
                }
            },
            AcaoFluxo::MostrarPopover { cursor } => format!("popover@{},{}", cursor.0, cursor.1),
            AcaoFluxo::LerConfiguracao => "configuracao".to_string(),
            AcaoFluxo::Traduzir { idioma, .. } => format!("traduzir:{idioma}"),
            AcaoFluxo::MostrarPrincipal => "mostrar-principal".to_string(),
            AcaoFluxo::FocarPrincipal => "focar-principal".to_string(),
        })
        .collect()
}

fn config() -> ConfiguracaoProvedor {
    ConfiguracaoProvedor::DeepL { api_key: "k".to_string() }
}

#[test]
fn fluxo_principal_completo() {
    let mut f = FluxoTraducao::novo(DestinoTraducao::Principal, "Hello".to_string());
    assert_eq!(descrever(&f.avancar(EventoFluxo::Inicio)), vec!["main:iniciada:Hello", "configuracao"]);
    assert_eq!(
        descrever(&f.avancar(EventoFluxo::ConfiguracaoLida(Ok((config(), "pt-br".to_string()))))),
        vec!["traduzir:pt-br"]
    );
    assert_eq!(
        descrever(&f.avancar(EventoFluxo::TraducaoConcluida(Ok("Olá".to_string())))),
        vec!["main:nova:Hello:Olá:pt-br", "mostrar-principal"]
    );
    assert_eq!(
        descrever(&f.avancar(EventoFluxo::PrincipalExibida { manter_no_topo: false })),
        vec!["focar-principal"]
    );
    assert!(f.avancar(EventoFluxo::PrincipalExibida { manter_no_topo: true }).is_empty());
}

#[test]
fn fluxo_popover_mostra_antes_e_nao_levanta_a_principal() {
    let mut f = FluxoTraducao::novo(DestinoTraducao::Popover { cursor: (7, 9) }, "Hi".to_string());
    assert_eq!(
        descrever(&f.avancar(EventoFluxo::Inicio)),
        vec!["popover:iniciada:Hi", "popover@7,9", "configuracao"]
    );
    f.avancar(EventoFluxo::ConfiguracaoLida(Ok((config(), "en".to_string()))));
    assert_eq!(
        descrever(&f.avancar(EventoFluxo::TraducaoConcluida(Ok("Hi!".to_string())))),
        vec!["popover:nova:Hi:Hi!:en"]
    );
    assert!(f.avancar(EventoFluxo::PrincipalExibida { manter_no_topo: false }).is_empty());
}

#[test]
fn fluxo_erros_vao_para_a_janela_do_destino() {
    let mut f = FluxoTraducao::novo(DestinoTraducao::Popover { cursor: (0, 0) }, "x".to_string());
    assert_eq!(
        descrever(&f.avancar(EventoFluxo::ConfiguracaoLida(Err("sem chave".to_string())))),
        vec!["popover:erro:sem chave"]
    );
    let mut g = FluxoTraducao::novo(DestinoTraducao::Principal, "x".to_string());
    assert_eq!(
        descrever(&g.avancar(EventoFluxo::TraducaoConcluida(Err("403".to_string())))),
        vec!["main:erro:403"]
    );
}
