use select_translate::captura::{
    houve_novo_texto, janela_do_destino, roteiro_copiar, tecla_copiar, DestinoTraducao,
    DirecaoTecla, MonitorAutomatico, PassoTeclado, Plataforma, TeclaSimulada, VK_C,
};
use select_translate::configuracao::{interpretar_booleano_store, ler_texto, ValorArmazenado};

#[test]
fn detecta_texto_novo_diferente_do_original() {
    assert!(houve_novo_texto("abc", "xyz"));
}

#[test]
fn ignora_quando_capturado_igual_ao_original() {
    assert!(!houve_novo_texto("abc", "abc"));
}

#[test]
fn ignora_quando_capturado_esta_vazio_ou_so_espacos() {
    assert!(!houve_novo_texto("abc", ""));
    assert!(!houve_novo_texto("abc", "   "));
}

#[test]
fn interpretar_booleano_store_true_quando_true() {
    assert!(interpretar_booleano_store(Some(ValorArmazenado::Booleano(true))));
}

#[test]
fn interpretar_booleano_store_false_quando_false() {
    assert!(!interpretar_booleano_store(Some(ValorArmazenado::Booleano(false))));
}

#[test]
fn interpretar_booleano_store_false_quando_ausente_ou_tipo_errado() {
    assert!(!interpretar_booleano_store(None));
    assert!(!interpretar_booleano_store(Some(ValorArmazenado::Texto("ligado".to_string()))));
}

#[test]
fn tecla_copiar_usa_virtual_key_c_no_windows() {
    assert_eq!(tecla_copiar(Plataforma::Windows), TeclaSimulada::Outra(VK_C));
    assert_eq!(VK_C, 0x43);
}

#[test]
fn tecla_copiar_usa_c_minusculo_fora_do_windows() {
    assert_eq!(tecla_copiar(Plataforma::Outra), TeclaSimulada::Unicode('c'));
}

#[test]
fn novo_texto_com_espacos_em_volta_conta() {
    assert!(houve_novo_texto("abc", "  xyz \n"));
    assert!(!houve_novo_texto("abc", "\t\n \u{00A0}\u{3000}"));
    assert!(houve_novo_texto("", "a"));
}

#[test]
fn novo_texto_diferente_so_nos_espacos_conta() {
    assert!(houve_novo_texto("abc", "abc "));
}

#[test]
fn janela_de_cada_destino() {
    assert_eq!(janela_do_destino(DestinoTraducao::Principal), "main");
    assert_eq!(janela_do_destino(DestinoTraducao::Popover { cursor: (10, 20) }), "popover");
}

#[test]
fn roteiro_solta_modificadores_antes_do_ctrl_c() {
    let passos = roteiro_copiar(Plataforma::Outra);
    assert_eq!(
        passos,
        vec![
            PassoTeclado::Tecla(TeclaSimulada::Alt, DirecaoTecla::Soltar),
            PassoTeclado::Tecla(TeclaSimulada::Shift, DirecaoTecla::Soltar),
            PassoTeclado::Tecla(TeclaSimulada::Control, DirecaoTecla::Soltar),
            PassoTeclado::Pausa(50),
            PassoTeclado::Tecla(TeclaSimulada::Control, DirecaoTecla::Pressionar),
            PassoTeclado::Tecla(TeclaSimulada::Unicode('c'), DirecaoTecla::Clicar),
            PassoTeclado::Tecla(TeclaSimulada::Control, DirecaoTecla::Soltar),
            PassoTeclado::Pausa(250),
        ]
    );
    let passos_windows = roteiro_copiar(Plataforma::Windows);
    assert_eq!(passos_windows[5], PassoTeclado::Tecla(TeclaSimulada::Outra(0x43), DirecaoTecla::Clicar));
}

#[test]
fn monitor_comeca_pelo_que_ja_estava_no_clipboard() {
    let mut m = MonitorAutomatico::novo(Some("copiado antes".to_string()));
    assert_eq!(m.processar_leitura(true, Some("copiado antes".to_string())), None);
    let m2 = MonitorAutomatico::novo(None);
    assert_eq!(m2.ultimo_valor, "");
}

#[test]
fn monitor_traduz_uma_vez_cada_valor_novo() {
    let mut m = MonitorAutomatico::novo(Some("a".to_string()));
    assert_eq!(m.processar_leitura(true, Some("b".to_string())), Some("b".to_string()));
    assert_eq!(m.ultimo_valor, "b");
    assert_eq!(m.processar_leitura(true, Some("b".to_string())), None);
    assert_eq!(m.processar_leitura(true, Some("   ".to_string())), None);
    assert_eq!(m.ultimo_valor, "b");
    assert_eq!(m.processar_leitura(true, None), None);
    assert_eq!(m.processar_leitura(true, Some("a".to_string())), Some("a".to_string()));
}

#[test]
fn monitor_desligado_nao_traduz_nem_esquece() {
    let mut m = MonitorAutomatico::novo(Some("a".to_string()));
    assert_eq!(m.processar_leitura(false, Some("b".to_string())), None);
    assert_eq!(m.ultimo_valor, "a");
    assert_eq!(m.processar_leitura(true, Some("b".to_string())), Some("b".to_string()));
}

#[test]
fn ler_texto_ignora_vazio_e_outros_tipos() {
    assert_eq!(ler_texto(Some(ValorArmazenado::Texto("x".to_string()))), Some("x".to_string()));
    assert_eq!(ler_texto(Some(ValorArmazenado::Texto(String::new()))), None);
    assert_eq!(ler_texto(Some(ValorArmazenado::Booleano(true))), None);
    assert_eq!(ler_texto(Some(ValorArmazenado::Outro)), None);
    assert_eq!(ler_texto(None), None);
}
