use select_translate::configuracao::ValorArmazenado;
use select_translate::traducao::azure::{self, ItemRespostaAzure};
use select_translate::traducao::deepl::{self, RespostaDeepL};
use select_translate::traducao::{
    codigo_idioma, configuracao_do_store, montar_pedido, ConfiguracaoProvedor, CorpoPedido,
    EventoHttp, LeituraConfiguracao, ProximoPasso, TraducaoRecebida,
};

/// The translations of a decoded `{"translations": [{"text": ..}, ..]}`.
fn traducoes(objeto: &serde_json::Value) -> Result<Vec<TraducaoRecebida>, String> {
    let lista = objeto
        .get("translations")
        .and_then(|t| t.as_array())
        .ok_or_else(|| "missing field `translations`".to_string())?;
    let mut traducoes = Vec::new();
    for t in lista {
        let text = t
            .get("text")
            .and_then(|x| x.as_str())
            .ok_or_else(|| "missing field `text`".to_string())?;
        traducoes.push(TraducaoRecebida { text: text.to_string() });
    }
    Ok(traducoes)
}

/// A DeepL reply body decoded as the app decodes it.
fn analisar_deepl(corpo: &str) -> Result<RespostaDeepL, String> {
    let valor: serde_json::Value = serde_json::from_str(corpo).map_err(|e| e.to_string())?;
    Ok(RespostaDeepL { translations: traducoes(&valor)? })
}

/// An Azure reply body decoded as the app decodes it.
fn analisar_azure(corpo: &str) -> Result<Vec<ItemRespostaAzure>, String> {
    let valor: serde_json::Value = serde_json::from_str(corpo).map_err(|e| e.to_string())?;
    let itens = valor.as_array().ok_or_else(|| "expected a sequence".to_string())?;
    let mut resposta = Vec::new();
    for item in itens {
        resposta.push(ItemRespostaAzure { translations: traducoes(item)? });
    }
    Ok(resposta)
}

#[test]
fn montar_url_inclui_idioma_de_destino() {
    assert_eq!(
        azure::montar_url("pt"),
        "https://api.cognitive.microsofttranslator.com/translate?api-version=3.0&to=pt"
    );
}

#[test]
fn azure_extrair_traducao_extrai_o_primeiro_texto() {
    let json = r#"[{"translations":[{"text":"Olá, mundo!","to":"pt"}]}]"#;
    assert_eq!(azure::extrair_traducao(analisar_azure(json)).unwrap(), "Olá, mundo!");
}

#[test]
fn azure_extrair_traducao_falha_com_lista_vazia() {
    let json = r#"[]"#;
    assert!(azure::extrair_traducao(analisar_azure(json)).is_err());
}

#[test]
fn azure_extrair_traducao_falha_com_json_invalido() {
    assert!(azure::extrair_traducao(analisar_azure("isso não é json")).is_err());
}

#[test]
fn endpoint_conta_free_usa_api_free() {
    assert_eq!(deepl::endpoint("abc123:fx"), "https://api-free.deepl.com/v2/translate");
}

#[test]
fn endpoint_conta_pro_usa_api_padrao() {
    assert_eq!(deepl::endpoint("abc123"), "https://api.deepl.com/v2/translate");
}

#[test]
fn deepl_extrair_traducao_extrai_o_primeiro_texto() {
    let json = r#"{"translations":[{"text":"Olá, mundo!"}]}"#;
    assert_eq!(deepl::extrair_traducao(analisar_deepl(json)).unwrap(), "Olá, mundo!");
}

#[test]
fn deepl_extrair_traducao_falha_com_lista_vazia() {
    let json = r#"{"translations":[]}"#;
    assert!(deepl::extrair_traducao(analisar_deepl(json)).is_err());
}

#[test]
fn deepl_extrair_traducao_falha_com_json_invalido() {
    assert!(deepl::extrair_traducao(analisar_deepl("isso não é json")).is_err());
}

#[test]
fn codigo_idioma_deepl() {
    let config = ConfiguracaoProvedor::DeepL { api_key: "x".to_string() };
    assert_eq!(codigo_idioma(&config, "pt-br"), "PT-BR");
    assert_eq!(codigo_idioma(&config, "en"), "EN-US");
}

#[test]
fn codigo_idioma_azure() {
    let config = ConfiguracaoProvedor::AzureTranslator {
        api_key: "x".to_string(),
        regiao: "brazilsouth".to_string(),
    };
    assert_eq!(codigo_idioma(&config, "pt-br"), "pt");
    assert_eq!(codigo_idioma(&config, "fr"), "fr");
}

#[test]
fn codigo_idioma_desconhecido_cai_no_padrao() {
    let config = ConfiguracaoProvedor::DeepL { api_key: "x".to_string() };
    assert_eq!(codigo_idioma(&config, "klingon"), "PT-BR");
}

#[test]
fn codigo_idioma_de_toda_a_tabela() {
    let deepl = ConfiguracaoProvedor::DeepL { api_key: "x".to_string() };
    let azure = ConfiguracaoProvedor::AzureTranslator { api_key: "x".to_string(), regiao: "r".to_string() };
    let tabela = [
        ("pt-br", "PT-BR", "pt"),
        ("pt-pt", "PT-PT", "pt-pt"),
        ("en", "EN-US", "en"),
        ("es", "ES", "es"),
        ("fr", "FR", "fr"),
        ("de", "DE", "de"),
        ("it", "IT", "it"),
    ];
    for (canonico, codigo_deepl, codigo_azure) in tabela {
        assert_eq!(codigo_idioma(&deepl, canonico), codigo_deepl);
        assert_eq!(codigo_idioma(&azure, canonico), codigo_azure);
    }
    assert_eq!(codigo_idioma(&azure, ""), "pt");
    assert_eq!(codigo_idioma(&azure, "PT-BR"), "pt");
}

#[test]
fn endpoint_ignora_espacos_em_volta_da_chave() {
    assert_eq!(deepl::endpoint("  abc123:fx \n"), "https://api-free.deepl.com/v2/translate");
    assert_eq!(deepl::endpoint("abc123:fx!"), "https://api.deepl.com/v2/translate");
    assert_eq!(deepl::endpoint(":fx"), "https://api-free.deepl.com/v2/translate");
    assert_eq!(deepl::endpoint("fx"), "https://api.deepl.com/v2/translate");
}

#[test]
fn azure_extrair_traducao_mensagens() {
    assert_eq!(
        azure::extrair_traducao(Ok(vec![ItemRespostaAzure { translations: vec![] }])),
        Err("Nenhuma tradução retornada pelo Azure Translator".to_string())
    );
    assert_eq!(
        azure::extrair_traducao(Err("eof".to_string())),
        Err("Resposta inesperada do Azure Translator: eof".to_string())
    );
}

#[test]
fn deepl_extrair_traducao_mensagens() {
    assert_eq!(
        deepl::extrair_traducao(Ok(RespostaDeepL { translations: vec![] })),
        Err("Nenhuma tradução retornada pela API do DeepL".to_string())
    );
    assert_eq!(
        deepl::extrair_traducao(Err("eof".to_string())),
        Err("Resposta inesperada da API do DeepL: eof".to_string())
    );
}

#[test]
fn pedido_deepl_leva_a_chave_e_o_codigo_do_idioma() {
    let config = ConfiguracaoProvedor::DeepL { api_key: "k:fx".to_string() };
    let pedido = montar_pedido(&config, "Hello", "en");
    assert_eq!(pedido.url, "https://api-free.deepl.com/v2/translate");
    assert_eq!(
        pedido.cabecalhos,
        vec![("Authorization".to_string(), "DeepL-Auth-Key k:fx".to_string())]
    );
    match pedido.corpo {
        CorpoPedido::DeepL { text, target_lang } => {
            assert_eq!(text, vec!["Hello".to_string()]);
            assert_eq!(target_lang, "EN-US");
        }
        CorpoPedido::Azure { .. } => panic!("corpo do Azure num pedido ao DeepL"),
    }
}

#[test]
fn pedido_azure_leva_chave_regiao_e_url() {
    let config = ConfiguracaoProvedor::AzureTranslator {
        api_key: "k".to_string(),
        regiao: "brazilsouth".to_string(),
    };
    let pedido = montar_pedido(&config, "Hello", "pt-br");
    assert_eq!(
        pedido.url,
        "https://api.cognitive.microsofttranslator.com/translate?api-version=3.0&to=pt"
    );
    assert_eq!(
        pedido.cabecalhos,
        vec![
            ("Ocp-Apim-Subscription-Key".to_string(), "k".to_string()),
            ("Ocp-Apim-Subscription-Region".to_string(), "brazilsouth".to_string()),
            ("Content-Type".to_string(), "application/json".to_string()),
        ]
    );
    match pedido.corpo {
        CorpoPedido::Azure { textos } => assert_eq!(textos, vec!["Hello".to_string()]),
        CorpoPedido::DeepL { .. } => panic!("corpo do DeepL num pedido ao Azure"),
    }
}

#[test]
fn passos_do_deepl() {
    match deepl::proximo_passo(EventoHttp::FalhaConexao("timeout".to_string())) {
        ProximoPasso::Concluir(r) => {
            assert_eq!(r, Err("Falha ao conectar com o DeepL: timeout".to_string()))
        }
        ProximoPasso::LerCorpo => panic!("deveria concluir"),
    }
    assert!(matches!(
        deepl::proximo_passo(EventoHttp::Status { codigo: 200, descricao: "200 OK".to_string() }),
        ProximoPasso::LerCorpo
    ));
    match deepl::proximo_passo(EventoHttp::Status { codigo: 403, descricao: "403 Forbidden".to_string() }) {
        ProximoPasso::Concluir(r) => assert_eq!(r, Err("Erro da API do DeepL: 403 Forbidden".to_string())),
        ProximoPasso::LerCorpo => panic!("403 não é sucesso"),
    }
    match deepl::proximo_passo(EventoHttp::FalhaLeitura("eof".to_string())) {
        ProximoPasso::Concluir(r) => assert_eq!(r, Err("Falha ao ler resposta do DeepL: eof".to_string())),
        ProximoPasso::LerCorpo => panic!("deveria concluir"),
    }
    let corpo = Ok(RespostaDeepL { translations: vec![TraducaoRecebida { text: "Oi".to_string() }] });
    match deepl::proximo_passo(EventoHttp::CorpoAnalisado(corpo)) {
        ProximoPasso::Concluir(r) => assert_eq!(r, Ok("Oi".to_string())),
        ProximoPasso::LerCorpo => panic!("deveria concluir"),
    }
}

#[test]
fn passos_do_azure() {
    assert!(matches!(
        azure::proximo_passo(EventoHttp::Status { codigo: 299, descricao: "299".to_string() }),
        ProximoPasso::LerCorpo
    ));
    match azure::proximo_passo(EventoHttp::Status { codigo: 300, descricao: "300 Multiple Choices".to_string() }) {
        ProximoPasso::Concluir(r) => {
            assert_eq!(r, Err("Erro da API do Azure Translator: 300 Multiple Choices".to_string()))
        }
        ProximoPasso::LerCorpo => panic!("300 não é sucesso"),
    }
    match azure::proximo_passo(EventoHttp::FalhaConexao("dns".to_string())) {
        ProximoPasso::Concluir(r) => {
            assert_eq!(r, Err("Falha ao conectar com o Azure Translator: dns".to_string()))
        }
        ProximoPasso::LerCorpo => panic!("deveria concluir"),
    }
    match azure::proximo_passo(EventoHttp::FalhaLeitura("eof".to_string())) {
        ProximoPasso::Concluir(r) => {
            assert_eq!(r, Err("Falha ao ler resposta do Azure Translator: eof".to_string()))
        }
        ProximoPasso::LerCorpo => panic!("deveria concluir"),
    }
}

fn texto(s: &str) -> Option<ValorArmazenado> {
    Some(ValorArmazenado::Texto(s.to_string()))
}

fn leitura_vazia() -> LeituraConfiguracao {
    LeituraConfiguracao { idioma: None, provedor: None, deepl_api_key: None, azure_api_key: None, azure_regiao: None }
}

#[test]
fn configuracao_padrao_e_deepl_em_pt_br() {
    let mut l = leitura_vazia();
    l.deepl_api_key = texto("chave");
    match configuracao_do_store(Ok(l)) {
        Ok((ConfiguracaoProvedor::DeepL { api_key }, idioma)) => {
            assert_eq!(api_key, "chave");
            assert_eq!(idioma, "pt-br");
        }
        _ => panic!("esperava DeepL"),
    }
}

#[test]
fn configuracao_sem_chave_do_deepl() {
    assert_eq!(
        configuracao_do_store(Ok(leitura_vazia())).err(),
        Some("Configure a API key do DeepL na tela de Configurações.".to_string())
    );
}

#[test]
fn configuracao_do_azure() {
    let mut l = leitura_vazia();
    l.provedor = texto("azure");
    l.idioma = texto("fr");
    assert_eq!(
        configuracao_do_store(Ok(l)).err(),
        Some("Configure a API key do Azure Translator na tela de Configurações.".to_string())
    );
    let mut l = leitura_vazia();
    l.provedor = texto("azure");
    l.azure_api_key = texto("k");
    assert_eq!(
        configuracao_do_store(Ok(l)).err(),
        Some("Configure a região do Azure Translator na tela de Configurações.".to_string())
    );
    let mut l = leitura_vazia();
    l.provedor = texto("azure");
    l.idioma = texto("fr");
    l.azure_api_key = texto("k");
    l.azure_regiao = texto("brazilsouth");
    match configuracao_do_store(Ok(l)) {
        Ok((ConfiguracaoProvedor::AzureTranslator { api_key, regiao }, idioma)) => {
            assert_eq!((api_key.as_str(), regiao.as_str(), idioma.as_str()), ("k", "brazilsouth", "fr"));
        }
        _ => panic!("esperava Azure"),
    }
}

#[test]
fn configuracao_provedor_desconhecido_e_deepl_e_erro_da_store_passa() {
    let mut l = leitura_vazia();
    l.provedor = texto("google");
    l.idioma = texto("");
    l.deepl_api_key = texto("k");
    match configuracao_do_store(Ok(l)) {
        Ok((ConfiguracaoProvedor::DeepL { api_key }, idioma)) => {
            assert_eq!((api_key.as_str(), idioma.as_str()), ("k", "pt-br"));
        }
        _ => panic!("esperava DeepL"),
    }
    assert_eq!(configuracao_do_store(Err("sem store".to_string())).err(), Some("sem store".to_string()));
}
