//! Translation providers: which provider and credentials to use, the
//! target language in each provider's code, the HTTP request sent to it
//! and how its reply becomes a translation or an error message.

pub mod azure;
pub mod deepl;

use vstd::prelude::*;
use crate::configuracao::{ler_texto, texto_ou_padrao, texto_util, ValorArmazenado};
use crate::texto::mesmo_texto;

verus! {

/// Which translation provider to use and its credentials, read from the
/// settings screen and never hard-coded.
#[derive(Debug)]
pub enum ConfiguracaoProvedor {
    DeepL { api_key: String },
    AzureTranslator { api_key: String, regiao: String },
}

/// A provider and its credentials, as characters.
pub enum ProvedorVisto {
    DeepL { api_key: Seq<char> },
    AzureTranslator { api_key: Seq<char>, regiao: Seq<char> },
}

impl View for ConfiguracaoProvedor {
    type V = ProvedorVisto;

    open spec fn view(&self) -> ProvedorVisto {
        match self {
            ConfiguracaoProvedor::DeepL { api_key } => ProvedorVisto::DeepL { api_key: api_key@ },
            ConfiguracaoProvedor::AzureTranslator { api_key, regiao } => ProvedorVisto::AzureTranslator {
                api_key: api_key@,
                regiao: regiao@,
            },
        }
    }
}

/// The supported target languages: canonical value, DeepL code, Azure code.
pub open spec fn idiomas() -> Seq<(Seq<char>, Seq<char>, Seq<char>)> {
    seq![
        ("pt-br"@, "PT-BR"@, "pt"@),
        ("pt-pt"@, "PT-PT"@, "pt-pt"@),
        ("en"@, "EN-US"@, "en"@),
        ("es"@, "ES"@, "es"@),
        ("fr"@, "FR"@, "fr"@),
        ("de"@, "DE"@, "de"@),
        ("it"@, "IT"@, "it"@),
    ]
}

/// The canonical language used when none is saved or the saved one is unknown.
pub open spec fn idioma_padrao() -> Seq<char> {
    "pt-br"@
}

/// The first entry of `tabela` whose canonical value is `canonico`.
pub open spec fn procurar_idioma(
    tabela: Seq<(Seq<char>, Seq<char>, Seq<char>)>,
    canonico: Seq<char>,
) -> Option<(Seq<char>, Seq<char>, Seq<char>)>
    decreases tabela.len(),
{
    if tabela.len() == 0 {
        None
    } else if tabela[0].0 == canonico {
        Some(tabela[0])
    } else {
        procurar_idioma(tabela.drop_first(), canonico)
    }
}

/// The table entry of a canonical language, or that of the default
/// language when it is not in the table.
pub open spec fn entrada_do_idioma(canonico: Seq<char>) -> (Seq<char>, Seq<char>, Seq<char>) {
    match procurar_idioma(idiomas(), canonico) {
        Some(e) => e,
        None => idiomas()[0],
    }
}

/// The target language code in the format the provider of `config` expects.
pub open spec fn codigo_do_idioma(config: ConfiguracaoProvedor, canonico: Seq<char>) -> Seq<char> {
    match config {
        ConfiguracaoProvedor::DeepL { .. } => entrada_do_idioma(canonico).1,
        ConfiguracaoProvedor::AzureTranslator { .. } => entrada_do_idioma(canonico).2,
    }
}

/// The language table. Adding a language is one more entry here (and in
/// the settings screen's list).
fn tabela_de_idiomas() -> (r: Vec<(&'static str, &'static str, &'static str)>)
    ensures
        r@.map_values(|e: (&'static str, &'static str, &'static str)| (e.0@, e.1@, e.2@))
            == idiomas(),
{
    let mut t: Vec<(&'static str, &'static str, &'static str)> = Vec::new();
    t.push(("pt-br", "PT-BR", "pt"));
    t.push(("pt-pt", "PT-PT", "pt-pt"));
    t.push(("en", "EN-US", "en"));
    t.push(("es", "ES", "es"));
    t.push(("fr", "FR", "fr"));
    t.push(("de", "DE", "de"));
    t.push(("it", "IT", "it"));
    assert(t@.map_values(|e: (&'static str, &'static str, &'static str)| (e.0@, e.1@, e.2@))
        =~= idiomas());
    t
}

/// Each supported language has its DeepL and Azure codes; any other
/// canonical value gets the codes of `pt-br`.
pub proof fn lei_codigos_dos_idiomas(config: ConfiguracaoProvedor, c: Seq<char>)
    ensures
        c == "pt-br"@ ==> codigo_do_idioma(config, c) == (if config is DeepL {
            "PT-BR"@
        } else {
            "pt"@
        }),
        c == "pt-pt"@ ==> codigo_do_idioma(config, c) == (if config is DeepL {
            "PT-PT"@
        } else {
            "pt-pt"@
        }),
        c == "en"@ ==> codigo_do_idioma(config, c) == (if config is DeepL {
            "EN-US"@
        } else {
            "en"@
        }),
        c == "es"@ ==> codigo_do_idioma(config, c) == (if config is DeepL {
            "ES"@
        } else {
            "es"@
        }),
        c == "fr"@ ==> codigo_do_idioma(config, c) == (if config is DeepL {
            "FR"@
        } else {
            "fr"@
        }),
        c == "de"@ ==> codigo_do_idioma(config, c) == (if config is DeepL {
            "DE"@
        } else {
            "de"@
        }),
        c == "it"@ ==> codigo_do_idioma(config, c) == (if config is DeepL {
            "IT"@
        } else {
            "it"@
        }),
        c != "pt-br"@ && c != "pt-pt"@ && c != "en"@ && c != "es"@ && c != "fr"@ && c != "de"@ && c != "it"@ ==> codigo_do_idioma(config, c) == (if config is DeepL {
            "PT-BR"@
        } else {
            "pt"@
        }),
{
    reveal_with_fuel(procurar_idioma, 8);
    reveal_strlit("pt-br");
    reveal_strlit("pt-pt");
    reveal_strlit("en");
    reveal_strlit("es");
    reveal_strlit("fr");
    reveal_strlit("de");
    reveal_strlit("it");
    assert("pt-pt"@[3] != "pt-br"@[3]);
    assert("es"@[1] != "en"@[1]);
    assert("fr"@[0] != "en"@[0]);
    assert("fr"@[0] != "es"@[0]);
    assert("de"@[0] != "en"@[0]);
    assert("de"@[0] != "es"@[0]);
    assert("de"@[0] != "fr"@[0]);
    assert("it"@[0] != "en"@[0]);
    assert("it"@[0] != "es"@[0]);
    assert("it"@[0] != "fr"@[0]);
    assert("it"@[0] != "de"@[0]);
}

/// The table entry of a canonical language, or that of the default one.
fn entrada_de_idioma(idioma_canonico: &str) -> (r: (&'static str, &'static str, &'static str))
    ensures
        (r.0@, r.1@, r.2@) == entrada_do_idioma(idioma_canonico@),
{
    let tabela = tabela_de_idiomas();
    let ghost vista = tabela@.map_values(
        |e: (&'static str, &'static str, &'static str)| (e.0@, e.1@, e.2@),
    );
    let n = tabela.len();
    let mut i: usize = 0;
    assert(vista.subrange(0, n as int) =~= vista);
    while i < n
        invariant
            n == tabela@.len(),
            vista == tabela@.map_values(
                |e: (&'static str, &'static str, &'static str)| (e.0@, e.1@, e.2@),
            ),
            vista == idiomas(),
            i <= n,
            procurar_idioma(vista, idioma_canonico@) == procurar_idioma(
                vista.subrange(i as int, n as int),
                idioma_canonico@,
            ),
        decreases n - i,
    {
        let ghost resto = vista.subrange(i as int, n as int);
        assert(resto[0] == vista[i as int]);
        assert(resto.drop_first() =~= vista.subrange(i + 1, n as int));
        let e = tabela[i];
        if mesmo_texto(e.0, idioma_canonico) {
            return e;
        }
        i = i + 1;
    }
    assert(vista.subrange(n as int, n as int).len() == 0);
    tabela[0]
}

/// The target language code in the format of the provider in use; an
/// unknown language falls back to the default one.
pub fn codigo_idioma(config: &ConfiguracaoProvedor, idioma_canonico: &str) -> (r: &'static str)
    ensures
        r@ == codigo_do_idioma(*config, idioma_canonico@),
{
    let entrada = entrada_de_idioma(idioma_canonico);
    match config {
        ConfiguracaoProvedor::DeepL { .. } => entrada.1,
        ConfiguracaoProvedor::AzureTranslator { .. } => entrada.2,
    }
}

/// The body of a translation request; the caller encodes it as JSON.
pub enum CorpoPedido {
    /// DeepL: `{"text": [..], "target_lang": ".."}`.
    DeepL { text: Vec<String>, target_lang: String },
    /// Azure Translator: `[{"Text": ".."}, ..]`, one object per text.
    Azure { textos: Vec<String> },
}

/// A translation request: a POST to `url` with these headers and body.
pub struct PedidoTraducao {
    pub url: String,
    pub cabecalhos: Vec<(String, String)>,
    pub corpo: CorpoPedido,
}

/// A request body, as characters.
pub enum CorpoVisto {
    DeepL { text: Seq<Seq<char>>, target_lang: Seq<char> },
    Azure { textos: Seq<Seq<char>> },
}

/// A request, as characters.
pub struct PedidoVisto {
    pub url: Seq<char>,
    pub cabecalhos: Seq<(Seq<char>, Seq<char>)>,
    pub corpo: CorpoVisto,
}

/// The characters of each text of a list.
pub open spec fn vista_dos_textos(textos: Seq<String>) -> Seq<Seq<char>> {
    textos.map_values(|t: String| t@)
}

impl View for PedidoTraducao {
    type V = PedidoVisto;

    open spec fn view(&self) -> PedidoVisto {
        PedidoVisto {
            url: self.url@,
            cabecalhos: self.cabecalhos@.map_values(|c: (String, String)| (c.0@, c.1@)),
            corpo: match self.corpo {
                CorpoPedido::DeepL { text, target_lang } => CorpoVisto::DeepL {
                    text: vista_dos_textos(text@),
                    target_lang: target_lang@,
                },
                CorpoPedido::Azure { textos } => CorpoVisto::Azure { textos: vista_dos_textos(textos@) },
            },
        }
    }
}

/// One translation as a provider returns it.
pub struct TraducaoRecebida {
    pub text: String,
}

/// What happened in the HTTP exchange with a provider, in order: the
/// request could not be sent, or a status came back; then the body could
/// not be read, or it was read and decoded as JSON into `R` (or failed to
/// decode, with the decoder's message).
pub enum EventoHttp<R> {
    FalhaConexao(String),
    Status { codigo: u16, descricao: String },
    FalhaLeitura(String),
    CorpoAnalisado(Result<R, String>),
}

/// What to do next in the exchange.
pub enum ProximoPasso {
    /// Read the body of the reply.
    LerCorpo,
    /// The exchange is over: the translation or the error message.
    Concluir(Result<String, String>),
}

/// An HTTP status in the success class (200 to 299).
pub open spec fn status_de_sucesso(codigo: u16) -> bool {
    200 <= codigo <= 299
}

/// The characters of a final outcome.
pub open spec fn vista_do_resultado(r: Result<String, String>) -> Result<Seq<char>, Seq<char>> {
    match r {
        Ok(t) => Ok(t@),
        Err(e) => Err(e@),
    }
}

/// A next step, as characters.
pub enum PassoVisto {
    LerCorpo,
    Concluir(Result<Seq<char>, Seq<char>>),
}

/// The characters of a next step.
pub open spec fn vista_do_passo(p: ProximoPasso) -> PassoVisto {
    match p {
        ProximoPasso::LerCorpo => PassoVisto::LerCorpo,
        ProximoPasso::Concluir(r) => PassoVisto::Concluir(vista_do_resultado(r)),
    }
}

/// `prefixo` followed by `detalhe`.
pub fn mensagem(prefixo: &str, detalhe: &str) -> (r: String)
    ensures
        r@ == prefixo@ + detalhe@,
{
    String::from_str(prefixo).concat(detalhe)
}

/// The request that translates `texto` with the provider of `config` into
/// the provider's code `codigo` of the target language.
pub open spec fn pedido_para(config: ProvedorVisto, texto: Seq<char>, codigo: Seq<char>) -> PedidoVisto {
    match config {
        ProvedorVisto::DeepL { api_key } => deepl::pedido_deepl(texto, codigo, api_key),
        ProvedorVisto::AzureTranslator { api_key, regiao } => azure::pedido_azure(
            texto,
            codigo,
            api_key,
            regiao,
        ),
    }
}

/// The request goes to the provider of the settings, with that provider's
/// credentials and the provider's code of the canonical language.
pub proof fn lei_pedido_do_provedor(config: ConfiguracaoProvedor, texto: Seq<char>, canonico: Seq<char>)
    ensures
        config matches ConfiguracaoProvedor::DeepL { api_key } ==> pedido_para(
            config@,
            texto,
            codigo_do_idioma(config, canonico),
        ) == deepl::pedido_deepl(texto, entrada_do_idioma(canonico).1, api_key@),
        config matches ConfiguracaoProvedor::AzureTranslator { api_key, regiao } ==> pedido_para(
            config@,
            texto,
            codigo_do_idioma(config, canonico),
        ) == azure::pedido_azure(texto, entrada_do_idioma(canonico).2, api_key@, regiao@),
{
}

/// Builds the request that translates `texto` into the canonical language
/// `idioma_canonico` with the configured provider, in that provider's code.
pub fn montar_pedido(config: &ConfiguracaoProvedor, texto: &str, idioma_canonico: &str) -> (r:
    PedidoTraducao)
    ensures
        r@ == pedido_para(config@, texto@, codigo_do_idioma(*config, idioma_canonico@)),
{
    let idioma = codigo_idioma(config, idioma_canonico);
    match config {
        ConfiguracaoProvedor::DeepL { api_key } => deepl::montar_pedido(texto, idioma, api_key.as_str()),
        ConfiguracaoProvedor::AzureTranslator { api_key, regiao } => azure::montar_pedido(
            texto,
            idioma,
            api_key.as_str(),
            regiao.as_str(),
        ),
    }
}

/// The store entries the provider settings are read from, each as found
/// in the store (`None` when absent).
pub struct LeituraConfiguracao {
    /// `idioma`: the canonical target language.
    pub idioma: Option<ValorArmazenado>,
    /// `provedor`: `"deepl"` or `"azure"`.
    pub provedor: Option<ValorArmazenado>,
    /// `deepl_api_key`.
    pub deepl_api_key: Option<ValorArmazenado>,
    /// `azure_api_key`.
    pub azure_api_key: Option<ValorArmazenado>,
    /// `azure_regiao`.
    pub azure_regiao: Option<ValorArmazenado>,
}

/// The message shown while the Azure key is not configured.
pub open spec fn falta_chave_azure() -> Seq<char> {
    "Configure a API key do Azure Translator na tela de Configurações."@
}

/// The message shown while the Azure region is not configured.
pub open spec fn falta_regiao_azure() -> Seq<char> {
    "Configure a região do Azure Translator na tela de Configurações."@
}

/// The message shown while the DeepL key is not configured.
pub open spec fn falta_chave_deepl() -> Seq<char> {
    "Configure a API key do DeepL na tela de Configurações."@
}

/// The provider settings and canonical language the store entries stand
/// for, or the message that says what is missing. Any provider other than
/// `"azure"` is DeepL, the default.
pub open spec fn configuracao_lida(l: LeituraConfiguracao) -> Result<
    (ProvedorVisto, Seq<char>),
    Seq<char>,
> {
    let idioma = texto_ou_padrao(l.idioma, idioma_padrao());
    if texto_ou_padrao(l.provedor, "deepl"@) == "azure"@ {
        match texto_util(l.azure_api_key) {
            None => Err(falta_chave_azure()),
            Some(api_key) => match texto_util(l.azure_regiao) {
                None => Err(falta_regiao_azure()),
                Some(regiao) => Ok((ProvedorVisto::AzureTranslator { api_key, regiao }, idioma)),
            },
        }
    } else {
        match texto_util(l.deepl_api_key) {
            None => Err(falta_chave_deepl()),
            Some(api_key) => Ok((ProvedorVisto::DeepL { api_key }, idioma)),
        }
    }
}

/// The target language read with the settings is the saved non-empty
/// `idioma` text, or `pt-br` only when none is saved, whichever provider is
/// chosen.
pub proof fn lei_configuracao_idioma(l: LeituraConfiguracao)
    ensures
        configuracao_lida(l) is Ok ==> (l.idioma matches Some(ValorArmazenado::Texto(s)) ==> (
        s@.len() > 0 ==> configuracao_lida(l)->Ok_0.1 == s@)),
        configuracao_lida(l) is Ok ==> (l.idioma matches Some(ValorArmazenado::Texto(s)) ==> (
        s@.len() == 0 ==> configuracao_lida(l)->Ok_0.1 == "pt-br"@)),
        configuracao_lida(l) is Ok ==> (!(l.idioma is Some) || !(l.idioma->0 is Texto)
            ==> configuracao_lida(l)->Ok_0.1 == "pt-br"@),
{
}

/// DeepL is chosen unless the saved provider is the text `azure`; with
/// DeepL, the outcome is the saved non-empty DeepL key, or the message
/// that asks for it.
pub proof fn lei_configuracao_deepl(l: LeituraConfiguracao)
    ensures
        !(l.provedor matches Some(ValorArmazenado::Texto(p)) && p@ == "azure"@) ==> (
        l.deepl_api_key matches Some(ValorArmazenado::Texto(k)) ==> (k@.len() > 0
            ==> configuracao_lida(l) is Ok && configuracao_lida(l)->Ok_0.0 == (
        ProvedorVisto::DeepL { api_key: k@ }))),
        !(l.provedor matches Some(ValorArmazenado::Texto(p)) && p@ == "azure"@) ==> (
        !(l.deepl_api_key matches Some(ValorArmazenado::Texto(k)) && k@.len() > 0)
            ==> configuracao_lida(l) == Err::<(ProvedorVisto, Seq<char>), Seq<char>>(
            "Configure a API key do DeepL na tela de Configurações."@,
        )),
{
    reveal_strlit("azure");
    reveal_strlit("deepl");
    assert("deepl"@[0] != "azure"@[0]);
}

/// With the saved provider `azure`, the outcome is the saved non-empty key
/// and region, or the message that asks for the first one missing.
pub proof fn lei_configuracao_azure(l: LeituraConfiguracao)
    ensures
        l.provedor matches Some(ValorArmazenado::Texto(p)) ==> (p@ == "azure"@ ==> (
        l.azure_api_key matches Some(ValorArmazenado::Texto(k)) ==> (
        l.azure_regiao matches Some(ValorArmazenado::Texto(g)) ==> (k@.len() > 0 && g@.len() > 0
            ==> configuracao_lida(l) is Ok && configuracao_lida(l)->Ok_0.0 == (
        ProvedorVisto::AzureTranslator { api_key: k@, regiao: g@ }))))),
        l.provedor matches Some(ValorArmazenado::Texto(p)) ==> (p@ == "azure"@ ==> (
        !(l.azure_api_key matches Some(ValorArmazenado::Texto(k)) && k@.len() > 0)
            ==> configuracao_lida(l) == Err::<(ProvedorVisto, Seq<char>), Seq<char>>(
            "Configure a API key do Azure Translator na tela de Configurações."@,
        ))),
        l.provedor matches Some(ValorArmazenado::Texto(p)) ==> (p@ == "azure"@ ==> (
        (l.azure_api_key matches Some(ValorArmazenado::Texto(k)) && k@.len() > 0) && !(
        l.azure_regiao matches Some(ValorArmazenado::Texto(g)) && g@.len() > 0)
            ==> configuracao_lida(l) == Err::<(ProvedorVisto, Seq<char>), Seq<char>>(
            "Configure a região do Azure Translator na tela de Configurações."@,
        ))),
{
    reveal_strlit("azure");
    reveal_strlit("deepl");
    assert("deepl"@[0] != "azure"@[0]);
}

/// The characters of a settings outcome.
pub open spec fn vista_da_configuracao(r: Result<(ConfiguracaoProvedor, String), String>) -> Result<
    (ProvedorVisto, Seq<char>),
    Seq<char>,
> {
    match r {
        Ok((c, i)) => Ok((c@, i@)),
        Err(e) => Err(e@),
    }
}

/// Reads the provider, its credentials and the target language saved by
/// the settings screen. `loja` is the store, or the error met opening it.
pub fn configuracao_do_store(loja: Result<LeituraConfiguracao, String>) -> (r: Result<
    (ConfiguracaoProvedor, String),
    String,
>)
    ensures
        vista_da_configuracao(r) == match loja {
            Ok(l) => configuracao_lida(l),
            Err(e) => Err(e@),
        },
{
    let l = match loja {
        Ok(l) => l,
        Err(e) => return Err(e),
    };
    let idioma = match ler_texto(l.idioma) {
        Some(s) => s,
        None => String::from_str("pt-br"),
    };
    let provedor = match ler_texto(l.provedor) {
        Some(s) => s,
        None => String::from_str("deepl"),
    };
    if mesmo_texto(provedor.as_str(), "azure") {
        let api_key = match ler_texto(l.azure_api_key) {
            Some(s) => s,
            None => {
                return Err(
                    String::from_str(
                        "Configure a API key do Azure Translator na tela de Configurações.",
                    ),
                )
            },
        };
        let regiao = match ler_texto(l.azure_regiao) {
            Some(s) => s,
            None => {
                return Err(
                    String::from_str("Configure a região do Azure Translator na tela de Configurações."),
                )
            },
        };
        Ok((ConfiguracaoProvedor::AzureTranslator { api_key, regiao }, idioma))
    } else {
        let api_key = match ler_texto(l.deepl_api_key) {
            Some(s) => s,
            None => {
                return Err(String::from_str("Configure a API key do DeepL na tela de Configurações."))
            },
        };
        Ok((ConfiguracaoProvedor::DeepL { api_key }, idioma))
    }
}

} // verus!
