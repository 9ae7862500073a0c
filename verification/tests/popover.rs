use select_translate::popover::{
    busca_de_monitor_cabe, calculo_de_posicao_cabe, posicao_do_popover_verificada,
    calcular_posicao_popover, limites_do_monitor_do_cursor, posicao_do_popover,
};

const TELA_FULL_HD: (i32, i32, u32, u32) = (0, 0, 1920, 1080);
const POPOVER: (u32, u32) = (360, 160);

#[test]
fn desloca_do_cursor_quando_ha_espaco_de_sobra() {
    let (x, y) = calcular_posicao_popover((500, 500), POPOVER, TELA_FULL_HD);
    assert_eq!((x, y), (516, 516));
}

#[test]
fn nao_ultrapassa_a_borda_direita() {
    let (x, _) = calcular_posicao_popover((1900, 500), POPOVER, TELA_FULL_HD);
    assert_eq!(x, 1920 - 360);
}

#[test]
fn nao_ultrapassa_a_borda_inferior() {
    let (_, y) = calcular_posicao_popover((500, 1070), POPOVER, TELA_FULL_HD);
    assert_eq!(y, 1080 - 160);
}

#[test]
fn nao_ultrapassa_o_canto_inferior_direito() {
    let (x, y) = calcular_posicao_popover((1919, 1079), POPOVER, TELA_FULL_HD);
    assert_eq!((x, y), (1920 - 360, 1080 - 160));
}

#[test]
fn respeita_origem_de_tela_fora_de_zero_multi_monitor() {
    let tela_segundo_monitor = (1920, 0, 1920, 1080);
    let (x, y) = calcular_posicao_popover((3800, 500), POPOVER, tela_segundo_monitor);
    assert_eq!((x, y), (1920 + 1920 - 360, 516));
}

#[test]
fn nao_ultrapassa_a_borda_esquerda_ou_superior_mesmo_com_deslocamento_negativo_hipotetico() {
    let (x, y) = calcular_posicao_popover((0, 0), POPOVER, TELA_FULL_HD);
    assert_eq!((x, y), (16, 16));
}

#[test]
fn popover_maior_que_a_tela_fica_na_origem() {
    let (x, y) = calcular_posicao_popover((500, 500), (4000, 3000), TELA_FULL_HD);
    assert_eq!((x, y), (0, 0));
}

#[test]
fn cursor_a_esquerda_da_tela_e_puxado_para_dentro() {
    let (x, y) = calcular_posicao_popover((-100, -50), POPOVER, (0, 0, 1920, 1080));
    assert_eq!((x, y), (0, 0));
}

#[test]
fn monitor_que_contem_o_cursor_e_escolhido() {
    let monitores = vec![(0, 0, 1920, 1080), (1920, 0, 2560, 1440)];
    assert_eq!(limites_do_monitor_do_cursor(&monitores, None, (2000, 100)), (1920, 0, 2560, 1440));
    assert_eq!(limites_do_monitor_do_cursor(&monitores, None, (10, 10)), (0, 0, 1920, 1080));
}

#[test]
fn monitor_cai_no_atual_e_depois_no_full_hd() {
    let monitores = vec![(0, 0, 1920, 1080)];
    assert_eq!(
        limites_do_monitor_do_cursor(&monitores, Some((5, 5, 800, 600)), (1920, 10)),
        (5, 5, 800, 600)
    );
    assert_eq!(limites_do_monitor_do_cursor(&Vec::new(), None, (10, 10)), (0, 0, 1920, 1080));
}

#[test]
fn borda_direita_do_monitor_nao_pertence_a_ele() {
    let monitores = vec![(0, 0, 1920, 1080), (1920, 0, 1920, 1080)];
    assert_eq!(limites_do_monitor_do_cursor(&monitores, None, (1920, 0)), (1920, 0, 1920, 1080));
}

#[test]
fn posicao_do_popover_usa_tamanho_padrao_e_monitor_do_cursor() {
    let monitores = vec![(0, 0, 1920, 1080), (1920, 0, 1920, 1080)];
    assert_eq!(posicao_do_popover((3800, 1000), None, &monitores, None), (3840 - 320, 1080 - 70));
    assert_eq!(
        posicao_do_popover((100, 100), Some((360, 160)), &monitores, None),
        (116, 116)
    );
}

#[test]
fn posicao_verificada_recusa_somas_que_estouram() {
    let monitores = vec![(0, 0, 1920, 1080)];
    assert_eq!(posicao_verificada((i32::MAX, 0), None, &monitores), None);
    assert_eq!(posicao_verificada((100, 100), None, &monitores), Some((116, 116)));
    let gigante = vec![(i32::MAX - 10, 0, 1920, 1080)];
    assert_eq!(posicao_verificada((i32::MAX - 5, 0), None, &gigante), None);
    assert_eq!(posicao_verificada((0, 0), None, &gigante), Some((16, 16)));
    assert!(busca_de_monitor_cabe(&gigante, (0, 0)));
    assert!(!busca_de_monitor_cabe(&gigante, (i32::MAX - 5, 0)));
    assert!(!calculo_de_posicao_cabe((i32::MAX - 1, 0), (10, 10), (0, 0, 100, 100)));
    assert!(calculo_de_posicao_cabe((10, 10), (10, 10), (0, 0, 100, 100)));
}

fn posicao_verificada(
    cursor: (i32, i32),
    tamanho: Option<(u32, u32)>,
    monitores: &Vec<(i32, i32, u32, u32)>,
) -> Option<(i32, i32)> {
    posicao_do_popover_verificada(cursor, tamanho, monitores, None)
}
